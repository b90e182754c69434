//! Process configuration, as the library consumes it.
//!
//! Parsing command-line arguments and environment variables is the
//! surrounding process's work; it hands the library this plain record.
use vstd::prelude::*;

verus! {

/// How often update cycles happen when no interval is configured, in
/// seconds.
pub const DEFAULT_INTERVAL_SECS: u32 = 300;

/// The run's configuration: the hostname whose A record is managed, the DNS
/// provider credential, and the polling interval in seconds.
///
/// The credential is carried to the provider client and must never be
/// logged; the record deliberately has no `Debug`, so it cannot end up in a
/// log line whole.
#[derive(Clone)]
pub struct Cli {
    /// Hostname to be updated.
    pub hostname: String,
    /// DNS provider API credential.
    pub cloudflare_key: String,
    /// How often updates happen, in seconds.
    pub interval: u32,
}

impl Cli {
    pub fn new(hostname: String, cloudflare_key: String, interval: u32) -> (c: Cli)
        ensures
            c.hostname@ == hostname@,
            c.cloudflare_key@ == cloudflare_key@,
            c.interval == interval,
    {
        Cli { hostname, cloudflare_key, interval }
    }
}

} // verus!
