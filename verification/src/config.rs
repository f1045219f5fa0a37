//! The launcher's configuration: the raw record as it was read, and the
//! record that validation makes of it.

use crate::error::ConfigError;
use crate::location::{is_url_text, parsed_url, ParsedUrl};
use vstd::prelude::*;

verus! {

/// A configuration as it was read, with nothing checked.
#[derive(Debug, PartialEq, Eq)]
pub struct RawConfig {
    /// Where the archive is downloaded from.
    pub url: String,
    /// The digest that the downloaded archive must have.
    pub hash: String,
    /// The path of the program to run, below the installation root.
    pub entry: String,
    /// The packages to install, in order.
    pub pkgs: Vec<String>,
}

/// The contents of a [`RawConfig`].
pub struct RawConfigView {
    pub url: Seq<char>,
    pub hash: Seq<char>,
    pub entry: Seq<char>,
    pub pkgs: Seq<Seq<char>>,
}

impl View for RawConfig {
    type V = RawConfigView;

    open spec fn view(&self) -> RawConfigView {
        RawConfigView {
            url: self.url@,
            hash: self.hash@,
            entry: self.entry@,
            pkgs: self.pkgs.deep_view(),
        }
    }
}

/// A configuration that passed validation: its URL was parsed and its entry
/// is a relative path.
#[derive(Debug, PartialEq, Eq)]
pub struct Config {
    url: ParsedUrl,
    hash: String,
    entry: String,
    pkgs: Vec<String>,
}

/// The contents of a [`Config`]. `url` is the serialization of the parsed
/// URL, not the text it was parsed from.
pub struct ConfigView {
    pub url: Seq<char>,
    pub hash: Seq<char>,
    pub entry: Seq<char>,
    pub pkgs: Seq<Seq<char>>,
}

/// Whether `entry` is a relative path: it is not empty and does not start at
/// the filesystem root. Paths are read as the image reads them, with `/` for
/// the root.
pub open spec fn is_relative_entry(entry: Seq<char>) -> bool {
    entry.len() > 0 && entry[0] != '/'
}

/// What holds of every validated configuration: `url` is the serialization
/// of a URL that the parser accepted, and `entry` is a relative path.
pub open spec fn is_valid(config: ConfigView) -> bool {
    is_url_text(config.url) && is_relative_entry(config.entry)
}

/// What validation makes of a raw configuration. The URL is judged first, so
/// a configuration that breaks both rules is refused for its URL.
pub open spec fn validate(raw: RawConfigView) -> Result<ConfigView, ConfigError> {
    match parsed_url(raw.url) {
        None => Err(ConfigError::InvalidUrl),
        Some(url) => if is_relative_entry(raw.entry) {
            Ok(ConfigView { url, hash: raw.hash, entry: raw.entry, pkgs: raw.pkgs })
        } else {
            Err(ConfigError::InvalidEntry)
        },
    }
}

/// Tells whether `entry` is a relative path.
pub fn entry_is_relative(entry: &str) -> (res: bool)
    ensures
        res == is_relative_entry(entry@),
{
    !entry.is_empty() && entry.get_char(0) != '/'
}

impl View for Config {
    type V = ConfigView;

    closed spec fn view(&self) -> ConfigView {
        ConfigView {
            url: self.url@,
            hash: self.hash@,
            entry: self.entry@,
            pkgs: self.pkgs.deep_view(),
        }
    }
}

impl Config {
    /// What holds of every value of this type: its contents are valid.
    #[verifier::type_invariant]
    pub open spec fn well_formed(&self) -> bool {
        is_valid(self@)
    }

    /// Makes a configuration of a parsed URL and the other three fields,
    /// which are kept as they are. Fails with `InvalidEntry` exactly where
    /// `entry` is not a relative path. What it makes is valid.
    pub fn new(url: ParsedUrl, hash: String, entry: String, pkgs: Vec<String>) -> (res: Result<
        Config,
        ConfigError,
    >)
        ensures
            match res {
                Ok(config) => is_relative_entry(entry@) && is_valid(config@) && config@ == (
                ConfigView { url: url@, hash: hash@, entry: entry@, pkgs: pkgs.deep_view() }),
                Err(e) => !is_relative_entry(entry@) && e == ConfigError::InvalidEntry,
            },
    {
        proof {
            use_type_invariant(&url);
        }
        if entry_is_relative(entry.as_str()) {
            Ok(Config { url, hash, entry, pkgs })
        } else {
            Err(ConfigError::InvalidEntry)
        }
    }

    /// Validates a raw configuration.
    ///
    /// Succeeds exactly where `url` parses as an absolute URL and `entry` is
    /// a relative path. An unparseable `url` gives `InvalidUrl`, whatever
    /// `entry` holds; with a parseable `url`, an empty or absolute `entry`
    /// gives `InvalidEntry`. On success the configuration is valid: `url` is
    /// held as the parser serialized it, and `hash`, `entry` and `pkgs` are
    /// those of `raw`.
    pub fn from_raw(raw: RawConfig) -> (res: Result<Config, ConfigError>)
        ensures
            match res {
                Ok(config) => validate(raw@) == Ok::<ConfigView, ConfigError>(config@),
                Err(e) => validate(raw@) == Err::<ConfigView, ConfigError>(e),
            },
            res is Ok <==> parsed_url(raw.url@) is Some && is_relative_entry(raw.entry@),
            res matches Ok(config) ==> is_valid(config@),
            parsed_url(raw.url@) is None ==> res == Err::<Config, ConfigError>(
                ConfigError::InvalidUrl,
            ),
            parsed_url(raw.url@) is Some && !is_relative_entry(raw.entry@) ==> res == Err::<
                Config,
                ConfigError,
            >(ConfigError::InvalidEntry),
    {
        match ParsedUrl::parse(raw.url.as_str()) {
            Ok(url) => Config::new(url, raw.hash, raw.entry, raw.pkgs),
            Err(e) => Err(e),
        }
    }

    /// The parsed URL of the archive.
    pub fn url(&self) -> (url: &ParsedUrl)
        ensures
            url@ == self@.url,
    {
        &self.url
    }

    /// The digest that the downloaded archive must have.
    pub fn hash(&self) -> (hash: &str)
        ensures
            hash@ == self@.hash,
    {
        self.hash.as_str()
    }

    /// The path of the program to run, which is relative.
    pub fn entry(&self) -> (entry: &str)
        ensures
            entry@ == self@.entry,
            is_relative_entry(entry@),
    {
        proof {
            use_type_invariant(self);
        }
        self.entry.as_str()
    }

    /// The packages to install, in order.
    pub fn pkgs(&self) -> (pkgs: &Vec<String>)
        ensures
            pkgs.deep_view() == self@.pkgs,
    {
        &self.pkgs
    }
}

} // verus!
