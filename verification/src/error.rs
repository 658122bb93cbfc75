//! The error type shared by the whole library.
//!
//! Errors raised by outside crates (the watcher backend, I/O, the database)
//! are carried by the text they display.

use vstd::prelude::*;
use crate::text::concat2;

verus! {

/// Everything that can go wrong while watching, recording or publishing.
#[derive(Debug)]
pub enum WatcherError {
    /// An error of the file-system watcher backend, by its message.
    NotifyError(String),
    ConfigError(String),
    /// An I/O error, by its message.
    IoError(String),
    UnsupportedSystem(String),
    HashError(String),
    DatabaseError(String),
    /// A failed path canonicalisation, by the I/O error's message.
    CanonicalizeFailed(String),
    UriFailed(String),
    Other(String),
}

/// The prefix that the displayed form of each variant starts with.
pub open spec fn message_prefix(e: WatcherError) -> Seq<char> {
    match e {
        WatcherError::NotifyError(_) => "Watcher error: "@,
        WatcherError::ConfigError(_) => "Configuration error: "@,
        WatcherError::IoError(_) => "I/O error: "@,
        WatcherError::UnsupportedSystem(_) => "Unsupported system: "@,
        WatcherError::HashError(_) => "Hash computation error: "@,
        WatcherError::DatabaseError(_) => "Database error: "@,
        WatcherError::CanonicalizeFailed(_) => "Path canonicalize failed: "@,
        WatcherError::UriFailed(_) => "URI conversion failed: "@,
        WatcherError::Other(_) => "Error: "@,
    }
}

/// The text that each variant carries.
pub open spec fn detail(e: WatcherError) -> Seq<char> {
    match e {
        WatcherError::NotifyError(s) => s@,
        WatcherError::ConfigError(s) => s@,
        WatcherError::IoError(s) => s@,
        WatcherError::UnsupportedSystem(s) => s@,
        WatcherError::HashError(s) => s@,
        WatcherError::DatabaseError(s) => s@,
        WatcherError::CanonicalizeFailed(s) => s@,
        WatcherError::UriFailed(s) => s@,
        WatcherError::Other(s) => s@,
    }
}

/// The displayed form of an error: its variant's prefix, then its text.
pub open spec fn spec_message(e: WatcherError) -> Seq<char> {
    message_prefix(e) + detail(e)
}

impl WatcherError {
    /// The displayed form of the error.
    pub fn message(&self) -> (r: String)
        ensures
            r@ == spec_message(*self),
    {
        match self {
            WatcherError::NotifyError(s) => concat2("Watcher error: ", s.as_str()),
            WatcherError::ConfigError(s) => concat2("Configuration error: ", s.as_str()),
            WatcherError::IoError(s) => concat2("I/O error: ", s.as_str()),
            WatcherError::UnsupportedSystem(s) => concat2("Unsupported system: ", s.as_str()),
            WatcherError::HashError(s) => concat2("Hash computation error: ", s.as_str()),
            WatcherError::DatabaseError(s) => concat2("Database error: ", s.as_str()),
            WatcherError::CanonicalizeFailed(s) => concat2("Path canonicalize failed: ", s.as_str()),
            WatcherError::UriFailed(s) => concat2("URI conversion failed: ", s.as_str()),
            WatcherError::Other(s) => concat2("Error: ", s.as_str()),
        }
    }
}

} // verus!
