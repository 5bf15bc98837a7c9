//! The transport policy handed to the QUIC engine for each role.

use vstd::prelude::*;

verus! {

/// How long a connection may stay silent before it is dropped, in
/// milliseconds.
pub const IDLE_TIMEOUT_MS: u32 = 60000;

/// How often a keep-alive is sent on a quiet connection, in milliseconds.
pub const KEEP_ALIVE_INTERVAL_MS: u64 = 1000;

/// The transport settings of one endpoint.
#[derive(Clone, Copy, Debug, PartialEq, Eq, Structural)]
pub struct TransportPolicy {
    pub idle_timeout_ms: u32,
    pub keep_alive_interval_ms: u64,
    /// Whether active path-MTU discovery runs.
    pub mtu_discovery: bool,
    /// The cap on unidirectional streams the peer may open, where one is set.
    pub max_concurrent_uni_streams: Option<u8>,
}

/// The client's policy: the common timeouts, MTU discovery where the
/// operating system supports it, and the engine's default stream limits.
pub fn client_transport(mtud_supported: bool) -> (r: TransportPolicy)
    ensures
        r == (TransportPolicy {
            idle_timeout_ms: IDLE_TIMEOUT_MS,
            keep_alive_interval_ms: KEEP_ALIVE_INTERVAL_MS,
            mtu_discovery: mtud_supported,
            max_concurrent_uni_streams: None,
        }),
{
    TransportPolicy {
        idle_timeout_ms: IDLE_TIMEOUT_MS,
        keep_alive_interval_ms: KEEP_ALIVE_INTERVAL_MS,
        mtu_discovery: mtud_supported,
        max_concurrent_uni_streams: None,
    }
}

/// The server's policy: as the client's, and no unidirectional streams,
/// which the tunnel never uses.
pub fn server_transport(mtud_supported: bool) -> (r: TransportPolicy)
    ensures
        r == (TransportPolicy {
            idle_timeout_ms: IDLE_TIMEOUT_MS,
            keep_alive_interval_ms: KEEP_ALIVE_INTERVAL_MS,
            mtu_discovery: mtud_supported,
            max_concurrent_uni_streams: Some(0u8),
        }),
{
    let mut p = client_transport(mtud_supported);
    p.max_concurrent_uni_streams = Some(0);
    p
}

} // verus!
