//! How a bridge session ends, and how the server's accept loop treats each
//! inbound attempt.

use crate::bridge::{stop_of, ReadHalf, ReadOutcome};
use vstd::prelude::*;

verus! {

/// The application close code sent when the termination signal fires.
pub const SIGNAL_CLOSE_CODE: u32 = 0;

/// The close reason sent when the termination signal fires.
pub const SIGNAL_CLOSE_REASON: &'static str = "signal HUP";

/// One of the two copy loops of a bridge.
#[derive(Clone, Copy, Debug, PartialEq, Eq, Structural)]
pub enum Direction {
    /// From the stream's receive-half to the local write-half.
    Downstream,
    /// From the local read-half to the stream's send-half.
    Upstream,
}

/// The other loop of the bridge.
pub open spec fn peer_of(d: Direction) -> Direction {
    match d {
        Direction::Downstream => Direction::Upstream,
        Direction::Upstream => Direction::Downstream,
    }
}

/// How a session ends.
#[derive(Clone, Copy, Debug, PartialEq, Eq, Structural)]
pub enum Teardown {
    /// The named loop finished first; the session is over and the other
    /// loop is dropped without being drained.
    LoopFinished(Direction),
    /// The termination signal fired: close the connection with this
    /// application code and `SIGNAL_CLOSE_REASON`, which ends both loops.
    CloseConnection(u32),
}

impl Teardown {
    /// The loop that is dropped unfinished, if one is.
    pub fn abandoned(&self) -> (r: Option<Direction>)
        ensures
            r == (match *self {
                Teardown::LoopFinished(d) => Some(peer_of(d)),
                Teardown::CloseConnection(_) => None,
            }),
    {
        match self {
            Teardown::LoopFinished(Direction::Downstream) => Some(Direction::Upstream),
            Teardown::LoopFinished(Direction::Upstream) => Some(Direction::Downstream),
            Teardown::CloseConnection(_) => None,
        }
    }
}

/// How the session ends when it wakes with the loops `upstream_done` and
/// `downstream_done` finished and the termination signal `signalled` (never
/// on the server). The signal wins over a loop finishing at the same moment;
/// either loop finishing ends the session; with neither, the session goes
/// on (`None`).
pub open spec fn wake_outcome(upstream_done: bool, downstream_done: bool, signalled: bool) -> Option<
    Teardown,
> {
    if signalled {
        Some(Teardown::CloseConnection(SIGNAL_CLOSE_CODE))
    } else if upstream_done {
        Some(Teardown::LoopFinished(Direction::Upstream))
    } else if downstream_done {
        Some(Teardown::LoopFinished(Direction::Downstream))
    } else {
        None
    }
}

/// Decides, each time the session wakes, whether it is over.
pub fn on_wake(upstream_done: bool, downstream_done: bool, signalled: bool) -> (r: Option<
    Teardown,
>)
    ensures
        r == wake_outcome(upstream_done, downstream_done, signalled),
        signalled ==> r == Some(Teardown::CloseConnection(SIGNAL_CLOSE_CODE)),
        upstream_done || downstream_done ==> r is Some,
{
    if signalled {
        Some(Teardown::CloseConnection(SIGNAL_CLOSE_CODE))
    } else if upstream_done {
        Some(Teardown::LoopFinished(Direction::Upstream))
    } else if downstream_done {
        Some(Teardown::LoopFinished(Direction::Downstream))
    } else {
        None
    }
}

/// A loop that reads end-of-stream or fails a read stops, and the session
/// ends at its next wake: with no signal, that loop is the one reported
/// finished and the other is dropped unfinished.
pub proof fn lemma_terminal_read_ends_session(half: ReadHalf, r: ReadOutcome, d: Direction)
    requires
        r is End || r is Failed,
    ensures
        stop_of(half, r) is Some,
        wake_outcome(d == Direction::Upstream, d == Direction::Downstream, false) == Some(
            Teardown::LoopFinished(d),
        ),
{
}

/// What one turn of the server's accept loop saw.
#[derive(Clone, Copy, Debug, PartialEq, Eq, Structural)]
pub enum AcceptEvent {
    /// The accept primitive gave nothing this time.
    NothingIncoming,
    /// An attempt arrived but its handshake failed.
    HandshakeFailed,
    /// A connection was established.
    Established,
}

/// What the accept loop does next.
#[derive(Clone, Copy, Debug, PartialEq, Eq, Structural)]
pub enum AcceptAction {
    /// Wait for the next attempt.
    KeepListening,
    /// Hand the connection to a task of its own, then wait for the next
    /// attempt without waiting for that task.
    SpawnHandler,
}

/// The accept loop's answer to one event: only an established connection
/// gets a handler, and no event stops the loop.
pub fn on_accept(ev: AcceptEvent) -> (r: AcceptAction)
    ensures
        r == (if ev == AcceptEvent::Established {
            AcceptAction::SpawnHandler
        } else {
            AcceptAction::KeepListening
        }),
{
    match ev {
        AcceptEvent::Established => AcceptAction::SpawnHandler,
        _ => AcceptAction::KeepListening,
    }
}

} // verus!
