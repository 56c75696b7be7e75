//! Configuration of the two ends of the link.

use vstd::prelude::*;

use crate::{DEFAULT_MAC_IP, DEFAULT_PORT, DEFAULT_WIN_IP};

verus! {

/// How the sender's screen relates to the receiver's.
#[derive(Debug, Clone, Copy, PartialEq, Eq, Structural)]
pub enum StreamMode {
    /// Mirror the primary display.
    Mirror,
    /// Extend the desktop with a virtual display (experimental).
    Extend,
}

/// Application configuration.
#[derive(Debug, Clone)]
pub struct Config {
    /// Address to bind to.
    pub bind_address: String,
    /// Address of the other end.
    pub target_address: String,
    /// Port for streaming.
    pub port: u16,
    /// Streaming mode.
    pub mode: StreamMode,
    /// Log level.
    pub log_level: String,
    /// Log directory.
    pub log_dir: String,
}

impl Config {
    /// What every configuration starts from: the default port, mirroring,
    /// log level `info`, logs under `logs`.
    pub open spec fn has_defaults(&self) -> bool {
        &&& self.port == DEFAULT_PORT
        &&& self.mode == StreamMode::Mirror
        &&& self.log_level@ == "info"@
        &&& self.log_dir@ == "logs"@
    }

    /// The configuration of the sending side: bound to the sender's address,
    /// aimed at the receiver's.
    pub fn mac_sender() -> (c: Config)
        ensures
            c.bind_address@ == DEFAULT_MAC_IP@,
            c.target_address@ == DEFAULT_WIN_IP@,
            c.has_defaults(),
    {
        Config {
            bind_address: String::from_str(DEFAULT_MAC_IP),
            target_address: String::from_str(DEFAULT_WIN_IP),
            port: DEFAULT_PORT,
            mode: StreamMode::Mirror,
            log_level: String::from_str("info"),
            log_dir: String::from_str("logs"),
        }
    }

    /// The configuration of the receiving side: bound to the receiver's
    /// address, aimed at the sender's.
    pub fn win_receiver() -> (c: Config)
        ensures
            c.bind_address@ == DEFAULT_WIN_IP@,
            c.target_address@ == DEFAULT_MAC_IP@,
            c.has_defaults(),
    {
        Config {
            bind_address: String::from_str(DEFAULT_WIN_IP),
            target_address: String::from_str(DEFAULT_MAC_IP),
            port: DEFAULT_PORT,
            mode: StreamMode::Mirror,
            log_level: String::from_str("info"),
            log_dir: String::from_str("logs"),
        }
    }
}

impl Default for Config {
    /// Bound to every address, aimed at the receiver's.
    fn default() -> (c: Config)
        ensures
            c.bind_address@ == "0.0.0.0"@,
            c.target_address@ == DEFAULT_WIN_IP@,
            c.has_defaults(),
    {
        Config {
            bind_address: String::from_str("0.0.0.0"),
            target_address: String::from_str(DEFAULT_WIN_IP),
            port: DEFAULT_PORT,
            mode: StreamMode::Mirror,
            log_level: String::from_str("info"),
            log_dir: String::from_str("logs"),
        }
    }
}

} // verus!
