//! Startup configuration, resolved once and never re-read.
//!
//! The hosting process gathers the raw settings (environment, command
//! line — its business) and hands them here as plain optional values;
//! this module decides what the process runs with. Only the asset root
//! is required; everything else has a fixed default.

use vstd::prelude::*;

verus! {

/// Default bind address: a loopback address.
pub const DEFAULT_ADDRESS: &'static str = "127.0.0.1";

/// Default bind port.
pub const DEFAULT_PORT: u16 = 5000;

/// Default statistics log path.
pub const DEFAULT_LOG_FILE: &'static str = "access-log.csv";

/// The immutable configuration of one process.
#[derive(Debug, Clone, PartialEq, Eq)]
pub struct Config {
    pub root: String,
    pub address: String,
    pub port: u16,
    pub log_file: String,
    pub cors_enabled: bool,
}

/// Resolves the configuration from what the environment provided.
/// Without an asset root there is nothing to serve and startup is
/// refused; every other absent setting falls back to its default.
pub fn resolve_config(
    root: Option<String>,
    address: Option<String>,
    port: Option<u16>,
    log_file: Option<String>,
    cors_enabled: bool,
) -> (r: Option<Config>)
    ensures
        root is None ==> r is None,
        root matches Some(rt) ==> (r matches Some(c) && c.root == rt && (
        address matches Some(a) ==> c.address == a) && (address is None ==> c.address@
            == "127.0.0.1"@) && (port matches Some(p) ==> c.port == p) && (port is None ==> c.port
            == 5000) && (log_file matches Some(l) ==> c.log_file == l) && (log_file is None
            ==> c.log_file@ == "access-log.csv"@) && c.cors_enabled == cors_enabled),
{
    match root {
        None => None,
        Some(rt) => {
            let address = match address {
                Some(a) => a,
                None => String::from_str("127.0.0.1"),
            };
            let port = match port {
                Some(p) => p,
                None => 5000,
            };
            let log_file = match log_file {
                Some(l) => l,
                None => String::from_str("access-log.csv"),
            };
            Some(Config { root: rt, address, port, log_file, cors_enabled })
        },
    }
}

} // verus!
