//! The structured configuration the core consumes. Reading and parsing a
//! configuration file is the surrounding binary's job; the core only
//! requires the shape below.

use vstd::prelude::*;

verus! {

/// Where the service listens and how large one message may be.
#[derive(Debug, Clone, PartialEq, Eq)]
pub struct Service {
    pub host: String,
    pub port: u16,
    /// Ceiling on the payload length of one message; every connection's
    /// reusable buffer is sized to this.
    pub max_message_length: usize,
}

/// The backends requests are forwarded to.
#[derive(Debug, Clone, PartialEq, Eq)]
pub struct Upstream {
    /// Backend addresses, as `host:port` strings.
    pub hosts: Vec<String>,
    /// How many persistent connections to open per backend host.
    pub connections: usize,
}

#[derive(Debug, Clone, PartialEq, Eq)]
pub struct Config {
    pub service: Service,
    pub upstream: Upstream,
}

/// A configuration the core can run on: the shared buffers must at least
/// hold an 8-byte frame header, and the pool must have at least one
/// backend host and one connection slot per host to serve from.
pub open spec fn spec_config_wf(c: Config) -> bool {
    &&& c.service.max_message_length >= 8
    &&& c.upstream.hosts.len() > 0
    &&& c.upstream.connections > 0
}

impl Config {
    /// True exactly when the configuration satisfies `spec_config_wf`.
    pub fn is_well_formed(&self) -> (r: bool)
        ensures
            r == spec_config_wf(*self),
    {
        self.service.max_message_length >= 8 && self.upstream.hosts.len() > 0
            && self.upstream.connections > 0
    }
}

} // verus!
