//! Client defaults, gathered in one explicit configuration structure.

use vstd::prelude::*;

verus! {

pub const DEFAULT_PORT: u16 = 11300;

pub const DEFAULT_CONNECTION_TIMEOUT_SECS: u64 = 120;

/// The least urgent priority with the most significant bit set, the
/// protocol's customary default.
pub const DEFAULT_JOB_PRIORITY: u32 = 2147483648;

pub const DEFAULT_JOB_TTR_SECS: u64 = 120;

pub const DEFAULT_JOB_DELAY_SECS: u64 = 0;

/// Where and how to connect, with the documented defaults: `localhost`,
/// port 11300, a 120-second connect timeout.
#[derive(Debug, Clone)]
pub struct Config {
    pub host: String,
    pub port: u16,
    pub connection_timeout_secs: Option<u64>,
}

impl Config {
    /// The default connection settings.
    pub fn new() -> (c: Config)
        ensures
            c.host@ == "localhost"@,
            c.port == DEFAULT_PORT,
            c.connection_timeout_secs == Some(DEFAULT_CONNECTION_TIMEOUT_SECS),
    {
        Config {
            host: String::from_str("localhost"),
            port: DEFAULT_PORT,
            connection_timeout_secs: Option::Some(DEFAULT_CONNECTION_TIMEOUT_SECS),
        }
    }
}

} // verus!
