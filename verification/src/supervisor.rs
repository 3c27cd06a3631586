//! Supervisor decisions: gating new connections on node health and shutdown,
//! and pacing the node-liveness pinger.

use vstd::prelude::*;

use crate::{HEART_BEAT_INTERVAL_SECS, RPC_PING_INTERVAL_SECS};

verus! {

/// Digests one node ping: whether the maker may accept new swap requests,
/// and how long to wait before the next ping — the long interval while the
/// node is healthy, the heartbeat while it is not.
pub fn liveness_step(ping_ok: bool) -> (r: (bool, u64))
    ensures
        r.0 == ping_ok,
        r.1 == if ping_ok {
            RPC_PING_INTERVAL_SECS as int
        } else {
            HEART_BEAT_INTERVAL_SECS as int
        },
{
    if ping_ok {
        (true, RPC_PING_INTERVAL_SECS)
    } else {
        (false, HEART_BEAT_INTERVAL_SECS)
    }
}

/// Whether a newly accepted connection may reach the protocol handler: only
/// while the maker is not shutting down and the node-liveness pinger reports
/// the node healthy. While `accepting_clients` is false no new peer gets
/// through; existing handlers are unaffected.
pub fn should_accept(shutdown: bool, accepting_clients: bool) -> (r: bool)
    ensures
        r == (!shutdown && accepting_clients),
{
    !shutdown && accepting_clients
}

} // verus!
