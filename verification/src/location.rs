//! URLs as the configuration holds them: text that the URL parser accepted,
//! kept in the parser's own serialization.

use crate::error::ConfigError;
use vstd::prelude::*;

verus! {

/// The error type of the `url` crate's parser. Nothing is known of a value
/// of it but that the parser refused its input.
#[verifier::external_type_specification]
#[verifier::external_body]
pub struct ExParseError(url::ParseError);

/// What `url::Url::parse` makes of `input`: the serialization of the URL it
/// parsed, or `None` where it refuses the text as an absolute URL.
pub uninterp spec fn parsed_url(input: Seq<char>) -> Option<Seq<char>>;

/// Whether `text` is the serialization of some URL that the parser accepted.
pub open spec fn is_url_text(text: Seq<char>) -> bool {
    exists|input: Seq<char>| #[trigger] parsed_url(input) == Some(text)
}

/// Runs `url::Url::parse` on `input` and hands out the parsed URL's
/// serialization (`String::from` on a `Url`), or the parser's error.
///
/// Trusted: the parser's result depends on `input` alone, so it is the value
/// that `parsed_url` names.
#[verifier::external_body]
fn parse_absolute(input: &str) -> (res: Result<String, url::ParseError>)
    ensures
        match res {
            Ok(text) => parsed_url(input@) == Some(text@),
            Err(_) => parsed_url(input@) is None,
        },
{
    url::Url::parse(input).map(String::from)
}

/// An absolute URL in serialized form.
#[derive(Debug, PartialEq, Eq)]
pub struct ParsedUrl {
    text: String,
}

impl View for ParsedUrl {
    type V = Seq<char>;

    closed spec fn view(&self) -> Seq<char> {
        self.text@
    }
}

impl ParsedUrl {
    /// What holds of every value of this type: it is the serialization of a
    /// URL that the parser accepted.
    #[verifier::type_invariant]
    pub open spec fn well_formed(&self) -> bool {
        is_url_text(self@)
    }

    /// Parses `input` as an absolute URL. Succeeds exactly where the parser
    /// accepts `input`, and then holds the parser's serialization of it;
    /// fails with `InvalidUrl` on every other input.
    pub fn parse(input: &str) -> (res: Result<ParsedUrl, ConfigError>)
        ensures
            match res {
                Ok(url) => parsed_url(input@) == Some(url@),
                Err(e) => parsed_url(input@) is None && e == ConfigError::InvalidUrl,
            },
    {
        match parse_absolute(input) {
            Ok(text) => Ok(ParsedUrl { text }),
            Err(_) => Err(ConfigError::InvalidUrl),
        }
    }

    /// The serialized URL.
    pub fn as_str(&self) -> (text: &str)
        ensures
            text@ == self@,
            is_url_text(text@),
    {
        proof {
            use_type_invariant(self);
        }
        self.text.as_str()
    }
}

} // verus!
