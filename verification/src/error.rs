//! The library-wide error type.

use vstd::prelude::*;

verus! {

/// An error of the bot's own setup path. Outside failures are carried
/// as their textual descriptions.
#[derive(Debug)]
pub enum Error {
    /// The configuration file could not be parsed.
    ConfigError(String),
    /// An I/O failure while loading the configuration.
    IoError(String),
    /// A failure reported by the messaging client.
    MatrixError(String),
    /// The homeserver URL could not be parsed.
    HomeserverParseError(String),
    /// A plugin constructor failed.
    PluginInitError(String),
}

impl Error {
    /// A short, user-readable description of the error.
    pub fn describe(&self) -> (r: String)
        ensures
            r@ == spec_error_text(*self),
    {
        match self {
            Error::ConfigError(_) => String::from_str("unable to parse config"),
            Error::IoError(_) => String::from_str("An I/O error occurred"),
            Error::MatrixError(_) => String::from_str("matrix error"),
            Error::HomeserverParseError(_) => String::from_str("unable to parse homeserver url"),
            Error::PluginInitError(_) => String::from_str("failed to initialize plugin"),
        }
    }
}

/// The description that [`Error::describe`] returns for each variant.
pub open spec fn spec_error_text(e: Error) -> Seq<char> {
    match e {
        Error::ConfigError(_) => "unable to parse config"@,
        Error::IoError(_) => "An I/O error occurred"@,
        Error::MatrixError(_) => "matrix error"@,
        Error::HomeserverParseError(_) => "unable to parse homeserver url"@,
        Error::PluginInitError(_) => "failed to initialize plugin"@,
    }
}

} // verus!
