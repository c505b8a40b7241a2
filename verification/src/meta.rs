//! The ping command's decision: which reply a latency reading earns.

use vstd::prelude::*;

verus! {

/// Reply to a ping, by whether the gateway has a latency figure yet.
#[derive(Clone, Copy, Debug, PartialEq, Eq, Structural)]
pub enum PingReply {
    Latency { ms: u64 },
    Unavailable,
}

/// Picks the ping reply: the measured latency when one is available, and
/// the not-yet-available answer otherwise.
pub fn ping_reply(latency_ms: Option<u64>) -> (r: PingReply)
    ensures
        r == match latency_ms {
            Some(ms) => PingReply::Latency { ms },
            None => PingReply::Unavailable,
        },
{
    match latency_ms {
        Some(ms) => PingReply::Latency { ms },
        None => PingReply::Unavailable,
    }
}

} // verus!
