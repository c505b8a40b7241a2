//! The per-guild session record and the mathematical model of every
//! operation on it.
//!
//! Each operation of the manager is specified by a *step function* here: a
//! total spec function from the guild's current record (`None` when the
//! guild is disconnected) and the operation's inputs to the new record, the
//! outcome handed to the caller, and the effects the runtime must perform.
//! The executable manager proves that it computes exactly these steps, and
//! the laws in [`crate::laws`] are proved about the steps themselves.

use vstd::prelude::*;
use crate::protocol::{
    CommandError, ConnectionState, Effect, EnqueueOutcome, EventOutcome, JoinCompletion,
    JoinFinishOutcome, NodeEvent, NodeEventKind, NowPlayingStatus, PlaybackChange, SkipReport,
};
use crate::track::{Track, TrackQueue};

verus! {

/// One guild's voice/audio session record.
///
/// A record exists exactly while the guild is joining or joined; a guild
/// with no record is disconnected. `generation` distinguishes session
/// epochs: it is assigned afresh each time a join completes, and
/// asynchronous completions that answer an earlier epoch are discarded.
#[derive(Debug)]
pub struct GuildVoiceSession {
    pub state: ConnectionState,
    pub channel: u64,
    pub node_session: Option<u64>,
    pub generation: u64,
    pub now_playing: Option<Track>,
    pub paused: bool,
    pub queue: TrackQueue,
}

/// The mathematical value of a session record.
#[verifier::ext_equal]
pub struct SessionView {
    pub state: ConnectionState,
    pub channel: u64,
    pub node_session: Option<u64>,
    pub generation: u64,
    pub now_playing: Option<Track>,
    pub paused: bool,
    pub queue: Seq<Track>,
}

impl View for GuildVoiceSession {
    type V = SessionView;

    open spec fn view(&self) -> SessionView {
        SessionView {
            state: self.state,
            channel: self.channel,
            node_session: self.node_session,
            generation: self.generation,
            now_playing: self.now_playing,
            paused: self.paused,
            queue: self.queue@,
        }
    }
}

impl SessionView {
    /// Well-formedness of a stored record: a record is never in the
    /// disconnected state, it holds a node session exactly while
    /// connected, a track plays only while connected, and the pause flag
    /// is raised only while a track plays.
    pub open spec fn wf(self) -> bool {
        &&& !(self.state is Disconnected)
        &&& (self.state is Connected <==> self.node_session is Some)
        &&& (self.now_playing is Some ==> self.state is Connected)
        &&& (self.paused ==> self.now_playing is Some)
    }

    /// The node session handle; meaningful only while connected.
    pub open spec fn sid(self) -> u64 {
        self.node_session->0
    }

    /// One advance of playback: the queue head (if any) becomes the
    /// playing track, otherwise nothing plays; either way the pause flag
    /// drops.
    pub open spec fn advanced(self) -> SessionView {
        if self.queue.len() > 0 {
            SessionView {
                now_playing: Some(self.queue[0]),
                paused: false,
                queue: self.queue.drop_first(),
                ..self
            }
        } else {
            SessionView { now_playing: None, paused: false, ..self }
        }
    }

    /// The node commands one skip-advance issues: halt the current track
    /// if one plays, then dispatch the new queue head if there is one.
    pub open spec fn advance_effects(self) -> Seq<Effect> {
        let stop = if self.now_playing is Some {
            seq![Effect::Stop { session: self.sid() }]
        } else {
            Seq::<Effect>::empty()
        };
        let play = if self.queue.len() > 0 {
            seq![Effect::Play { session: self.sid(), track: self.queue[0] }]
        } else {
            Seq::<Effect>::empty()
        };
        stop + play
    }

    /// `n` advances in a row.
    pub open spec fn skipped(self, n: nat) -> SessionView
        decreases n,
    {
        if n == 0 {
            self
        } else {
            self.advanced().skipped((n - 1) as nat)
        }
    }

    /// The node commands `n` advances issue, in order.
    pub open spec fn skip_effects(self, n: nat) -> Seq<Effect>
        decreases n,
    {
        if n == 0 {
            Seq::<Effect>::empty()
        } else {
            self.advance_effects() + self.advanced().skip_effects((n - 1) as nat)
        }
    }

    /// How many of `n` attempted advances find a next track: one per
    /// queued track, until the queue is exhausted.
    pub open spec fn skip_advances(self, n: nat) -> nat {
        if n <= self.queue.len() {
            n
        } else {
            self.queue.len()
        }
    }
}

/// `n` advances are one advance after `n - 1` of them: the recursion of
/// [`SessionView::skipped`] read from the other end.
pub proof fn lemma_skipped_snoc(v: SessionView, n: nat)
    requires
        n >= 1,
    ensures
        v.skipped(n) == v.skipped((n - 1) as nat).advanced(),
    decreases n,
{
    reveal_with_fuel(SessionView::skipped, 2);
    if n > 1 {
        lemma_skipped_snoc(v.advanced(), (n - 1) as nat);
    }
}

/// The commands of `n` advances are those of the first `n - 1` followed
/// by those of the last: the recursion of [`SessionView::skip_effects`]
/// read from the other end.
pub proof fn lemma_skip_effects_snoc(v: SessionView, n: nat)
    requires
        n >= 1,
    ensures
        v.skip_effects(n) == v.skip_effects((n - 1) as nat) + v.skipped(
            (n - 1) as nat,
        ).advance_effects(),
    decreases n,
{
    reveal_with_fuel(SessionView::skipped, 2);
    reveal_with_fuel(SessionView::skip_effects, 2);
    if n == 1 {
        assert(v.skip_effects(1nat) =~= v.skip_effects(0nat) + v.skipped(0nat).advance_effects());
    } else {
        lemma_skip_effects_snoc(v.advanced(), (n - 1) as nat);
        assert(v.skip_effects(n) =~= v.skip_effects((n - 1) as nat) + v.skipped(
            (n - 1) as nat,
        ).advance_effects());
    }
}

/// A step's result: the guild's new record, the outcome for the caller,
/// and the effects for the runtime, in order.
pub type Step<Outcome> = (Option<SessionView>, Outcome, Seq<Effect>);

/// Beginning of a join to `channel`.
///
/// Joined to the same channel already: the benign `AlreadyConnected`
/// answer, nothing changes, nothing is performed. Joined to a different
/// channel: the old connection and node session are torn down, playback
/// state drops (the queue is kept), and the join proceeds against the new
/// channel. A join already in flight is re-aimed at `channel`. Otherwise a
/// fresh record in the connecting state is created. Every proceeding join
/// ends with instructions to connect the transport and then create the
/// node session; the runtime reports how that went through
/// [`join_finish_step`].
pub open spec fn join_begin_step(
    s: Option<SessionView>,
    channel: u64,
) -> Step<Result<(), CommandError>> {
    match s {
        Some(v) => {
            if v.state is Connected && v.channel == channel {
                (Some(v), Err(CommandError::AlreadyConnected), Seq::<Effect>::empty())
            } else if v.state is Connected {
                let moved = SessionView {
                    state: ConnectionState::Connecting,
                    channel: channel,
                    node_session: None,
                    now_playing: None,
                    paused: false,
                    ..v
                };
                let effects = seq![
                    Effect::DestroyNodeSession { session: v.sid() },
                    Effect::DisconnectVoice { channel: v.channel },
                    Effect::ConnectVoice { channel },
                    Effect::CreateNodeSession { channel },
                ];
                (Some(moved), Ok(()), effects)
            } else {
                let rebound = SessionView { channel: channel, ..v };
                let effects = seq![
                    Effect::ConnectVoice { channel },
                    Effect::CreateNodeSession { channel },
                ];
                (Some(rebound), Ok(()), effects)
            }
        },
        None => {
            let fresh = SessionView {
                state: ConnectionState::Connecting,
                channel: channel,
                node_session: None,
                generation: 0,
                now_playing: None,
                paused: false,
                queue: Seq::<Track>::empty(),
            };
            let effects = seq![
                Effect::ConnectVoice { channel },
                Effect::CreateNodeSession { channel },
            ];
            (Some(fresh), Ok(()), effects)
        },
    }
}

/// Completion of a join, with `fresh_generation` the epoch number a
/// success is stamped with.
///
/// A completion is applied only to a record that is still waiting for one.
/// Success binds the node session handle and connects the record; a
/// transport failure leaves nothing behind; a node failure additionally
/// instructs the runtime to disconnect the transport it had already
/// connected. Either failure ends with the guild disconnected, so no
/// partial state is ever observable. A completion that finds no pending
/// join is stale: it is discarded, and a session handle it carries is
/// destroyed so the node does not leak one.
pub open spec fn join_finish_step(
    s: Option<SessionView>,
    completion: JoinCompletion,
    fresh_generation: u64,
) -> Step<JoinFinishOutcome> {
    match s {
        Some(v) => {
            if v.state is Connecting {
                match completion {
                    JoinCompletion::TransportFailed => (
                        None,
                        JoinFinishOutcome::Reverted,
                        Seq::<Effect>::empty(),
                    ),
                    JoinCompletion::NodeFailed => (
                        None,
                        JoinFinishOutcome::Reverted,
                        seq![Effect::DisconnectVoice { channel: v.channel }],
                    ),
                    JoinCompletion::Ready { session } => (
                        Some(
                            SessionView {
                                state: ConnectionState::Connected,
                                node_session: Some(session),
                                generation: fresh_generation,
                                ..v
                            },
                        ),
                        JoinFinishOutcome::Connected,
                        Seq::<Effect>::empty(),
                    ),
                }
            } else {
                (Some(v), JoinFinishOutcome::Stale, stale_join_effects(completion))
            }
        },
        None => (None, JoinFinishOutcome::Stale, stale_join_effects(completion)),
    }
}

/// A stale completion's cleanup: destroy a session handle it carries.
pub open spec fn stale_join_effects(completion: JoinCompletion) -> Seq<Effect> {
    match completion {
        JoinCompletion::Ready { session } => seq![Effect::DestroyNodeSession { session }],
        _ => Seq::<Effect>::empty(),
    }
}

/// Leaving the voice channel.
///
/// With no record present nothing at all is performed. Otherwise the node
/// session (if one is bound) is destroyed, the transport is disconnected,
/// and the record — queue and all — is removed; the guild always ends with
/// no session. Failures of the teardown effects are the runtime's to
/// report (see [`leave_report_step`]) and never block the removal.
pub open spec fn leave_step(s: Option<SessionView>) -> Step<Result<(), CommandError>> {
    match s {
        Some(v) => {
            let destroy = if v.node_session is Some {
                seq![Effect::DestroyNodeSession { session: v.sid() }]
            } else {
                Seq::<Effect>::empty()
            };
            (None, Ok(()), destroy + seq![Effect::DisconnectVoice { channel: v.channel }])
        },
        None => (None, Err(CommandError::NoActiveSession), Seq::<Effect>::empty()),
    }
}

/// How a finished leave is reported, given whether the node teardown and
/// the transport disconnect each succeeded.
pub open spec fn leave_report_step(node_ok: bool, transport_ok: bool) -> Result<
    (),
    CommandError,
> {
    if node_ok && transport_ok {
        Ok(())
    } else {
        Err(CommandError::PartialTeardownFailure)
    }
}

/// Whether an enqueue may start, and the epoch ticket its resolution must
/// answer: enqueueing requires a connected session.
pub open spec fn enqueue_ticket(s: Option<SessionView>) -> Result<u64, CommandError> {
    match s {
        Some(v) => if v.state is Connected {
            Ok(v.generation)
        } else {
            Err(CommandError::NotInVoiceChannel)
        },
        None => Err(CommandError::NotInVoiceChannel),
    }
}

/// Applying a finished query resolution.
///
/// The resolution answers the epoch named by `ticket`; if the guild's
/// session is gone, re-created, or mid-move, the answer is discarded
/// untouched. `None` for `resolution` means the node was unreachable. An
/// empty resolution is reported as such. Otherwise: with nothing playing,
/// the first resolved track is dispatched immediately — it never enters
/// the queue — and the rest join the queue tail in resolved order; with
/// something playing, all resolved tracks join the queue tail in order.
pub open spec fn enqueue_apply_step(
    s: Option<SessionView>,
    ticket: u64,
    resolution: Option<Seq<Track>>,
) -> Step<Result<EnqueueOutcome, CommandError>> {
    match s {
        Some(v) => {
            if !(v.state is Connected) || v.generation != ticket {
                (s, Ok(EnqueueOutcome::Stale), Seq::<Effect>::empty())
            } else {
                match resolution {
                    None => (s, Err(CommandError::NodeUnavailable), Seq::<Effect>::empty()),
                    Some(tracks) => {
                        if tracks.len() == 0 {
                            (s, Err(CommandError::QueryResolutionEmpty), Seq::<Effect>::empty())
                        } else if v.now_playing is None {
                            let started = SessionView {
                                now_playing: Some(tracks[0]),
                                paused: false,
                                queue: v.queue + tracks.drop_first(),
                                ..v
                            };
                            (
                                Some(started),
                                Ok(EnqueueOutcome::Started { queued: (tracks.len() - 1) as usize }),
                                seq![Effect::Play { session: v.sid(), track: tracks[0] }],
                            )
                        } else {
                            let appended = SessionView { queue: v.queue + tracks, ..v };
                            (
                                Some(appended),
                                Ok(EnqueueOutcome::Appended { count: tracks.len() as usize }),
                                Seq::<Effect>::empty(),
                            )
                        }
                    },
                }
            }
        },
        None => (s, Ok(EnqueueOutcome::Stale), Seq::<Effect>::empty()),
    }
}

/// Skipping `count` tracks.
///
/// A count of zero is rejected before anything else is looked at; without
/// a connected session there is nothing to skip in. Otherwise playback
/// advances `count` times; attempts beyond the queue's length find
/// nothing to skip and are counted as such rather than failing.
pub open spec fn skip_step(
    s: Option<SessionView>,
    count: u64,
) -> Step<Result<SkipReport, CommandError>> {
    if count == 0 {
        (s, Err(CommandError::InvalidArgument), Seq::<Effect>::empty())
    } else {
        match s {
            Some(v) => {
                if v.state is Connected {
                    let advances = v.skip_advances(count as nat);
                    (
                        Some(v.skipped(count as nat)),
                        Ok(
                            SkipReport {
                                advanced: advances as u64,
                                exhausted: (count - advances) as u64,
                            },
                        ),
                        v.skip_effects(count as nat),
                    )
                } else {
                    (s, Err(CommandError::NoActiveSession), Seq::<Effect>::empty())
                }
            },
            None => (s, Err(CommandError::NoActiveSession), Seq::<Effect>::empty()),
        }
    }
}

/// Pausing the current track: already paused is answered without a second
/// node command; nothing playing is a no-op answer.
pub open spec fn pause_step(s: Option<SessionView>) -> Step<Result<PlaybackChange, CommandError>> {
    match s {
        Some(v) => {
            if !(v.state is Connected) {
                (s, Err(CommandError::NoActiveSession), Seq::<Effect>::empty())
            } else if v.now_playing is None {
                (s, Ok(PlaybackChange::NothingPlaying), Seq::<Effect>::empty())
            } else if v.paused {
                (s, Err(CommandError::AlreadyInRequestedState), Seq::<Effect>::empty())
            } else {
                (
                    Some(SessionView { paused: true, ..v }),
                    Ok(PlaybackChange::Applied),
                    seq![Effect::Pause { session: v.sid() }],
                )
            }
        },
        None => (s, Err(CommandError::NoActiveSession), Seq::<Effect>::empty()),
    }
}

/// Resuming the current track: the mirror image of [`pause_step`].
pub open spec fn resume_step(s: Option<SessionView>) -> Step<Result<PlaybackChange, CommandError>> {
    match s {
        Some(v) => {
            if !(v.state is Connected) {
                (s, Err(CommandError::NoActiveSession), Seq::<Effect>::empty())
            } else if v.now_playing is None {
                (s, Ok(PlaybackChange::NothingPlaying), Seq::<Effect>::empty())
            } else if !v.paused {
                (s, Err(CommandError::AlreadyInRequestedState), Seq::<Effect>::empty())
            } else {
                (
                    Some(SessionView { paused: false, ..v }),
                    Ok(PlaybackChange::Applied),
                    seq![Effect::Resume { session: v.sid() }],
                )
            }
        },
        None => (s, Err(CommandError::NoActiveSession), Seq::<Effect>::empty()),
    }
}

/// Halting playback: the current track stops and nothing replaces it; the
/// queue and the connection stay untouched — this is what distinguishes a
/// stop from a leave.
pub open spec fn stop_step(s: Option<SessionView>) -> Step<Result<PlaybackChange, CommandError>> {
    match s {
        Some(v) => {
            if !(v.state is Connected) {
                (s, Err(CommandError::NoActiveSession), Seq::<Effect>::empty())
            } else if v.now_playing is None {
                (s, Ok(PlaybackChange::NothingPlaying), Seq::<Effect>::empty())
            } else {
                (
                    Some(SessionView { now_playing: None, paused: false, ..v }),
                    Ok(PlaybackChange::Applied),
                    seq![Effect::Stop { session: v.sid() }],
                )
            }
        },
        None => (s, Err(CommandError::NoActiveSession), Seq::<Effect>::empty()),
    }
}

/// Emptying the queue: answers how many tracks were dropped, touches
/// neither the playing track nor the connection, and never issues a node
/// command.
pub open spec fn clear_step(s: Option<SessionView>) -> Step<Result<usize, CommandError>> {
    match s {
        Some(v) => (
            Some(SessionView { queue: Seq::<Track>::empty(), ..v }),
            Ok(v.queue.len() as usize),
            Seq::<Effect>::empty(),
        ),
        None => (s, Err(CommandError::NoActiveSession), Seq::<Effect>::empty()),
    }
}

/// The read-only now-playing answer for a guild.
pub open spec fn now_playing_of(s: Option<SessionView>) -> NowPlayingStatus {
    match s {
        Some(v) => match v.now_playing {
            Some(t) => NowPlayingStatus::Playing { track: t, paused: v.paused },
            None => NowPlayingStatus::Idle,
        },
        None => NowPlayingStatus::Idle,
    }
}

/// Applying an unsolicited node event.
///
/// An event must name the guild's current node session and, for the track
/// lifecycle kinds, the currently playing track; anything else is stale —
/// for example an event of a session handle that was left behind — and is
/// discarded. A finish or error for the current track advances playback
/// exactly one step, as a single skip would, except that the finished
/// track needs no halting: only the next track's dispatch is issued.
pub open spec fn event_step(s: Option<SessionView>, ev: NodeEvent) -> Step<EventOutcome> {
    match s {
        Some(v) => {
            if v.state is Connected && v.node_session == Some(ev.session) {
                match ev.kind {
                    NodeEventKind::TrackStart => (s, EventOutcome::Acknowledged, Seq::<Effect>::empty()),
                    _ => {
                        if v.now_playing is Some && v.now_playing->0.id == ev.track_id {
                            (
                                Some(v.advanced()),
                                EventOutcome::Advanced { failed: ev.kind is TrackError },
                                finish_effects(v),
                            )
                        } else {
                            (s, EventOutcome::Discarded, Seq::<Effect>::empty())
                        }
                    },
                }
            } else {
                (s, EventOutcome::Discarded, Seq::<Effect>::empty())
            }
        },
        None => (s, EventOutcome::Discarded, Seq::<Effect>::empty()),
    }
}

/// The dispatch a track-end advance issues: the new queue head, if any.
pub open spec fn finish_effects(v: SessionView) -> Seq<Effect> {
    if v.queue.len() > 0 {
        seq![Effect::Play { session: v.sid(), track: v.queue[0] }]
    } else {
        Seq::<Effect>::empty()
    }
}

} // verus!
