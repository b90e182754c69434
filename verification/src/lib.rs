//! Dynamic-DNS updater core: discovers the host's public IP through a list of
//! HTTP providers, compares it with the A record a DNS provider holds for a
//! hostname, and decides when that record must be rewritten.
//!
//! This crate holds the verified logic: the bounded lossy message channel and
//! the shutdown signal that connect the producer and consumer tasks, the
//! first-success policy over the IP providers, the update decision, and the
//! construction and parsing of the DNS provider's request and response bodies.
//! The surrounding process (HTTP calls, timers, task spawning, files) drives
//! these functions and performs the actions they decide on.
use vstd::prelude::*;

pub mod cache;
pub mod cf;
pub mod channel;
pub mod cli;
pub mod ip;
pub mod shutdown;
pub mod worker;

verus! {

/// One discovered public IP, as published on the message channel.
///
/// A message has no identity beyond its value: the consumer deduplicates by
/// comparing IP strings, so two messages carrying the same IP are both valid.
#[derive(Clone, Debug)]
pub struct Message {
    ip: String,
}

impl View for Message {
    type V = Seq<char>;

    closed spec fn view(&self) -> Seq<char> {
        self.ip@
    }
}

impl Message {
    pub fn new(ip: String) -> (m: Message)
        ensures
            m@ == ip@,
    {
        Message { ip }
    }

    pub fn ip(&self) -> (r: &String)
        ensures
            r@ == self@,
    {
        &self.ip
    }

    pub fn into_ip(self) -> (r: String)
        ensures
            r@ == self@,
    {
        self.ip
    }
}

} // verus!
