//! The configuration file (`config.toml`, table `basic_settings`).
//!
//! The application reads and parses the file into these types.

use vstd::prelude::*;
use crate::error::WatcherError;
use crate::text::concat2;

verus! {

/// The settings of the `basic_settings` table; each may be left out.
pub struct BasicSettings {
    pub watcher: Option<String>,
    pub targets: Option<Vec<String>>,
    pub ignore: Option<Vec<String>>,
    pub logfile: Option<String>,
    pub hashdir: Option<String>,
    pub token: Option<String>,
    pub repo: Option<String>,
    pub dbfile: Option<String>,
}

/// The configuration file.
pub struct Config {
    pub basic_settings: BasicSettings,
}

impl Config {
    /// The error for a configuration file that does not exist.
    pub fn not_found(path: &str) -> (r: WatcherError)
        ensures
            r matches WatcherError::ConfigError(m) && m@ == "Configuration file not found: "@ + path@,
    {
        WatcherError::ConfigError(concat2("Configuration file not found: ", path))
    }
}

} // verus!
