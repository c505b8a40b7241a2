//! The typed interface between the coordinator and its surroundings:
//! outbound effects, inbound node events, and the outcome kinds that
//! every command reply is drawn from.

use vstd::prelude::*;
use crate::track::Track;

verus! {

/// A counter's successor that sticks at the top of its range, so counts
/// stay meaningful without ever wrapping.
pub open spec fn saturating_next(x: u64) -> u64 {
    if x == u64::MAX {
        x
    } else {
        (x + 1) as u64
    }
}

/// Connection lifecycle of a guild's voice session.
///
/// A stored session record is never `Disconnected`: a guild with no record
/// is the disconnected guild. The variant still exists so that read-only
/// queries can report a connection state for any guild.
#[derive(Clone, Copy, Debug, PartialEq, Eq, Structural)]
pub enum ConnectionState {
    Disconnected,
    Connecting,
    Connected,
}

/// Recoverable outcome kinds surfaced by the coordinator.
///
/// Every one of these is handled locally and turned into a reply; none
/// aborts dispatch. `AlreadyConnected` is the benign answer to a repeated
/// join, and `PartialTeardownFailure` reports a leave whose teardown steps
/// did not all succeed even though the session was removed.
#[derive(Clone, Copy, Debug, PartialEq, Eq, Structural)]
pub enum CommandError {
    NotInVoiceChannel,
    NoActiveSession,
    NodeUnavailable,
    QueryResolutionEmpty,
    InvalidArgument,
    AlreadyConnected,
    AlreadyInRequestedState,
    PartialTeardownFailure,
}

/// One instruction to the surrounding runtime.
///
/// The coordinator never talks to the voice transport or the audio node
/// itself: it emits effects in the order they must be performed, and the
/// runtime carries them out, reporting completions back through the
/// manager's entry points.
#[derive(Debug, PartialEq)]
pub enum Effect {
    /// Connect the guild's voice transport to this channel.
    ConnectVoice { channel: u64 },
    /// Disconnect the guild's voice transport from this channel.
    DisconnectVoice { channel: u64 },
    /// Create an audio-node session for the connection to this channel.
    CreateNodeSession { channel: u64 },
    /// Destroy this audio-node session.
    DestroyNodeSession { session: u64 },
    /// Start playing a track on this node session.
    Play { session: u64, track: Track },
    /// Pause the current track on this node session.
    Pause { session: u64 },
    /// Resume the current track on this node session.
    Resume { session: u64 },
    /// Halt the current track on this node session.
    Stop { session: u64 },
}

/// What the runtime reports back after carrying out the effects of a
/// `join_begin`: the transport or the node refused, or the node handed
/// out a session handle.
#[derive(Clone, Copy, Debug, PartialEq, Eq, Structural)]
pub enum JoinCompletion {
    TransportFailed,
    NodeFailed,
    Ready { session: u64 },
}

/// How a reported join completion was applied.
#[derive(Clone, Copy, Debug, PartialEq, Eq, Structural)]
pub enum JoinFinishOutcome {
    /// The session is now connected and bound to its node session.
    Connected,
    /// A failure was reported; the partial session was torn down, so the
    /// guild is disconnected again and no partial state remains visible.
    Reverted,
    /// The completion no longer matches a pending join and was discarded.
    Stale,
}

/// Reply to an enqueue once the query resolution came back.
#[derive(Clone, Copy, Debug, PartialEq, Eq, Structural)]
pub enum EnqueueOutcome {
    /// Nothing was playing: the first resolved track was dispatched
    /// immediately and the remaining `queued` tracks joined the queue.
    Started { queued: usize },
    /// Something was playing: all `count` resolved tracks joined the queue.
    Appended { count: usize },
    /// The resolution answered a session epoch that is no longer current
    /// and was discarded without touching any state.
    Stale,
}

/// Reply to a skip: how many advances found a next track, and how many
/// attempts found nothing left to skip.
#[derive(Clone, Copy, Debug, PartialEq, Eq, Structural)]
pub struct SkipReport {
    pub advanced: u64,
    pub exhausted: u64,
}

/// Reply to a pause, resume or stop.
#[derive(Clone, Copy, Debug, PartialEq, Eq, Structural)]
pub enum PlaybackChange {
    /// The requested change was applied and the node was instructed.
    Applied,
    /// No track is playing, so there was nothing to change; no node
    /// command is issued.
    NothingPlaying,
}

/// Read-only answer to a now-playing query.
#[derive(Debug, PartialEq)]
pub enum NowPlayingStatus {
    Idle,
    Playing { track: Track, paused: bool },
}

/// Kind of an unsolicited track lifecycle notification from the node.
#[derive(Clone, Copy, Debug, PartialEq, Eq, Structural)]
pub enum NodeEventKind {
    TrackStart,
    TrackFinish,
    TrackError,
}

/// One unsolicited notification from the audio node, tagged with the node
/// session it belongs to and the track it concerns.
#[derive(Clone, Copy, Debug, PartialEq, Eq, Structural)]
pub struct NodeEvent {
    pub session: u64,
    pub track_id: u64,
    pub kind: NodeEventKind,
}

/// How a node event was applied.
#[derive(Clone, Copy, Debug, PartialEq, Eq, Structural)]
pub enum EventOutcome {
    /// A start notification for the current track; nothing changes.
    Acknowledged,
    /// The current track ended (`failed` tells whether it ended in error)
    /// and playback advanced exactly as a single skip would.
    Advanced { failed: bool },
    /// The event referenced a session handle or track that is no longer
    /// current and was discarded.
    Discarded,
}

} // verus!
