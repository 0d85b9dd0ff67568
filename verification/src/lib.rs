//! Core of a chat-bot message router: a plugin registry, an event
//! dispatcher, and two plugins (a random-choice responder and a
//! web-search responder).

use vstd::prelude::*;

mod error;
pub mod choices;
pub mod client;
pub mod event;
pub mod google_search;
pub mod plugin;
pub mod textutil;

pub use error::Error;

verus! {

/// The root configuration.
pub struct Config {
    /// The messaging-service specific configuration.
    pub matrix: MatrixConfig,
}

/// The messaging-service specific configuration.
pub struct MatrixConfig {
    /// The homeserver URL to connect to.
    pub homeserver: String,
    /// The username to use when authenticating.
    pub username: String,
    /// The password to use when authenticating.
    pub password: String,
    /// Room identifiers (not aliases) to join.
    pub rooms: Vec<String>,
}

} // verus!
