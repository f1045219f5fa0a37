//! The ways in which a configuration can be refused and a launch can fail.

use vstd::prelude::*;

verus! {

/// Why a raw configuration was not accepted.
#[derive(Debug, Clone, Copy, PartialEq, Eq, Structural)]
pub enum ConfigError {
    /// The `url` field is not an absolute URL.
    InvalidUrl,
    /// The `entry` field is empty or starts at the filesystem root.
    InvalidEntry,
}

impl ConfigError {
    /// The text of the diagnostic for this error.
    pub open spec fn message_text(self) -> Seq<char> {
        match self {
            ConfigError::InvalidUrl => "configuration: `url` is not an absolute URL"@,
            ConfigError::InvalidEntry => "configuration: `entry` is not a relative path"@,
        }
    }

    /// A diagnostic that names the rule the configuration broke.
    pub fn message(&self) -> (msg: String)
        ensures
            msg@ == self.message_text(),
    {
        match self {
            ConfigError::InvalidUrl => String::from_str(
                "configuration: `url` is not an absolute URL",
            ),
            ConfigError::InvalidEntry => String::from_str(
                "configuration: `entry` is not a relative path",
            ),
        }
    }
}

/// The step of a launch that failed.
#[derive(Debug, Clone, Copy, PartialEq, Eq, Structural)]
pub enum LaunchError {
    /// The build script could not be written.
    Write,
    /// The image build could not be started, or did not end with success.
    Build,
    /// The container could not be started.
    Spawn,
}

impl LaunchError {
    /// The text of the diagnostic for this error.
    pub open spec fn message_text(self) -> Seq<char> {
        match self {
            LaunchError::Write => "launch: the build script could not be written"@,
            LaunchError::Build => "launch: the image build failed"@,
            LaunchError::Spawn => "launch: the container could not be started"@,
        }
    }

    /// A diagnostic that names the step that failed.
    pub fn message(&self) -> (msg: String)
        ensures
            msg@ == self.message_text(),
    {
        match self {
            LaunchError::Write => String::from_str("launch: the build script could not be written"),
            LaunchError::Build => String::from_str("launch: the image build failed"),
            LaunchError::Spawn => String::from_str("launch: the container could not be started"),
        }
    }
}

} // verus!
