//! Process-wide proxy configuration.
//!
//! Two values are fixed before the first connection is accepted and shared
//! read-only by every connection: the listening port and the status label
//! spliced verbatim into both handshake response lines. The limits of the
//! sniffing and draining steps live here too.

use vstd::prelude::*;

verus! {

/// Listening port used when none is configured.
pub const DEFAULT_PORT: u16 = 80;

/// At most this many bytes are peeked when sniffing the client's preamble.
pub const PEEK_LIMIT: usize = 1024;

/// At most this many bytes of an HTTP preamble are read and discarded.
pub const DRAIN_LIMIT: usize = 1024;

/// The default status label, the bytes of `@RustyManager`.
pub open spec fn default_status() -> Seq<u8> {
    seq![
        64u8,
        82u8,
        117u8,
        115u8,
        116u8,
        121u8,
        77u8,
        97u8,
        110u8,
        97u8,
        103u8,
        101u8,
        114u8,
    ]
}

/// Executable copy of the default status label.
pub fn default_status_bytes() -> (v: Vec<u8>)
    ensures
        v@ == default_status(),
{
    let mut v: Vec<u8> = Vec::new();
    v.push(64);
    v.push(82);
    v.push(117);
    v.push(115);
    v.push(116);
    v.push(121);
    v.push(77);
    v.push(97);
    v.push(110);
    v.push(97);
    v.push(103);
    v.push(101);
    v.push(114);
    assert(v@ =~= default_status());
    v
}

/// The two values fixed for the process lifetime: listening port and status
/// label. Immutable once built.
pub struct ProxyConfig {
    pub port: u16,
    pub status: Vec<u8>,
}

impl ProxyConfig {
    /// Builds a configuration from explicit values.
    pub fn new(port: u16, status: Vec<u8>) -> (c: ProxyConfig)
        ensures
            c.port == port,
            c.status@ == status@,
    {
        ProxyConfig { port, status }
    }

    /// The configuration used when nothing is configured: port 80 and the
    /// default status label.
    pub fn standard() -> (c: ProxyConfig)
        ensures
            c.port == DEFAULT_PORT,
            c.status@ == default_status(),
    {
        ProxyConfig { port: DEFAULT_PORT, status: default_status_bytes() }
    }
}

} // verus!
