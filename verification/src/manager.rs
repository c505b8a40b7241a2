//! The voice session manager: one session record per guild, every
//! operation serialized per guild and proved to compute exactly the step
//! functions of [`crate::session`].
//!
//! Operations for one guild read and replace only that guild's record;
//! every mutating operation carries the frame clause that all other
//! guilds' records are untouched, which is what lets independent guilds
//! proceed in parallel once the surrounding runtime gives each guild its
//! own exclusive access. Calls into the voice transport and the audio
//! node are suspension points of the runtime, not of this type: an
//! operation returns the effects to perform, and completions re-enter
//! through `join_finish`, `enqueue_apply` and `handle_node_event`, which
//! discard answers aimed at a session epoch that is no longer current.

use std::collections::HashMap;
use vstd::prelude::*;
use crate::protocol::{
    saturating_next, CommandError, ConnectionState, Effect, EnqueueOutcome, EventOutcome,
    JoinCompletion, JoinFinishOutcome, NodeEvent, NodeEventKind, NowPlayingStatus, PlaybackChange,
    SkipReport,
};
use crate::session::{
    clear_step, enqueue_apply_step, enqueue_ticket, event_step, join_begin_step, join_finish_step,
    leave_report_step, leave_step, pause_step, resume_step, skip_step, stop_step, now_playing_of,
    GuildVoiceSession, SessionView,
};
use crate::track::{Track, TrackQueue};

verus! {

/// The table of guild sessions and the epoch counter joins are stamped
/// from.
pub struct VoiceSessionManager {
    table: HashMap<u64, GuildVoiceSession>,
    next_generation: u64,
}

impl VoiceSessionManager {
    /// The guild's session record as a mathematical value, `None` for a
    /// disconnected guild.
    pub closed spec fn opt_view(self, guild: u64) -> Option<SessionView> {
        if self.table@.contains_key(guild) {
            Some(self.table@[guild]@)
        } else {
            None
        }
    }

    /// The connection state reported for a guild; a guild with no record
    /// is disconnected.
    pub open spec fn connection_state(self, guild: u64) -> ConnectionState {
        match self.opt_view(guild) {
            Some(v) => v.state,
            None => ConnectionState::Disconnected,
        }
    }

    /// Every stored record is well-formed.
    pub closed spec fn inv(self) -> bool {
        forall|g: u64| #[trigger] self.table@.contains_key(g) ==> self.table@[g]@.wf()
    }

    /// The epoch number the next completed join will be stamped with.
    pub closed spec fn gen_counter(self) -> u64 {
        self.next_generation
    }

    /// An empty manager: no guild has a session.
    pub fn new() -> (m: VoiceSessionManager)
        ensures
            m.inv(),
            forall|g: u64| m.opt_view(g) is None,
            m.gen_counter() == 1,
    {
        VoiceSessionManager { table: HashMap::new(), next_generation: 1 }
    }

    /// Begins a join of `guild` to `channel`; see
    /// [`crate::session::join_begin_step`] for the cases.
    pub fn join_begin(&mut self, guild: u64, channel: u64) -> (r: (
        Result<(), CommandError>,
        Vec<Effect>,
    ))
        requires
            old(self).inv(),
        ensures
            final(self).inv(),
            final(self).gen_counter() == old(self).gen_counter(),
            ({
                let (s2, out, eff) = join_begin_step(old(self).opt_view(guild), channel);
                &&& r.0 == out
                &&& r.1@ == eff
                &&& final(self).opt_view(guild) == s2
            }),
            forall|g2: u64| g2 != guild ==> final(self).opt_view(g2) == old(self).opt_view(g2),
    {
        let ghost step = join_begin_step(old(self).opt_view(guild), channel);
        let mut effects: Vec<Effect> = Vec::new();
        match self.table.remove(&guild) {
            Some(mut s) => {
                if s.state == ConnectionState::Connected && s.channel == channel {
                    self.table.insert(guild, s);
                    proof {
                        assert(self.table@ =~= old(self).table@);
                    }
                    (Err(CommandError::AlreadyConnected), effects)
                } else if s.state == ConnectionState::Connected {
                    let sid = s.node_session.unwrap();
                    effects.push(Effect::DestroyNodeSession { session: sid });
                    effects.push(Effect::DisconnectVoice { channel: s.channel });
                    effects.push(Effect::ConnectVoice { channel });
                    effects.push(Effect::CreateNodeSession { channel });
                    s.state = ConnectionState::Connecting;
                    s.channel = channel;
                    s.node_session = None;
                    s.now_playing = None;
                    s.paused = false;
                    self.table.insert(guild, s);
                    proof {
                        assert(s@ =~= step.0->0);
                        assert(effects@ =~= step.2);
                    }
                    (Ok(()), effects)
                } else {
                    effects.push(Effect::ConnectVoice { channel });
                    effects.push(Effect::CreateNodeSession { channel });
                    s.channel = channel;
                    self.table.insert(guild, s);
                    proof {
                        assert(s@ =~= step.0->0);
                        assert(effects@ =~= step.2);
                    }
                    (Ok(()), effects)
                }
            },
            None => {
                effects.push(Effect::ConnectVoice { channel });
                effects.push(Effect::CreateNodeSession { channel });
                let s = GuildVoiceSession {
                    state: ConnectionState::Connecting,
                    channel,
                    node_session: None,
                    generation: 0,
                    now_playing: None,
                    paused: false,
                    queue: TrackQueue::new(),
                };
                proof {
                    assert(s@ =~= step.0->0);
                }
                self.table.insert(guild, s);
                proof {
                    assert(effects@ =~= step.2);
                }
                (Ok(()), effects)
            },
        }
    }

    /// Applies the runtime's report on a begun join; see
    /// [`crate::session::join_finish_step`]. A success is stamped with
    /// the current epoch counter, which then advances.
    pub fn join_finish(&mut self, guild: u64, completion: JoinCompletion) -> (r: (
        JoinFinishOutcome,
        Vec<Effect>,
    ))
        requires
            old(self).inv(),
        ensures
            final(self).inv(),
            ({
                let (s2, out, eff) = join_finish_step(
                    old(self).opt_view(guild),
                    completion,
                    old(self).gen_counter(),
                );
                &&& r.0 == out
                &&& r.1@ == eff
                &&& final(self).opt_view(guild) == s2
                &&& final(self).gen_counter() == if out is Connected {
                    saturating_next(old(self).gen_counter())
                } else {
                    old(self).gen_counter()
                }
            }),
            forall|g2: u64| g2 != guild ==> final(self).opt_view(g2) == old(self).opt_view(g2),
    {
        let ghost step = join_finish_step(
            old(self).opt_view(guild),
            completion,
            old(self).gen_counter(),
        );
        let mut effects: Vec<Effect> = Vec::new();
        let pending = match self.table.get(&guild) {
            Some(s) => s.state == ConnectionState::Connecting,
            None => false,
        };
        if pending {
            let mut s = self.table.remove(&guild).unwrap();
            match completion {
                JoinCompletion::TransportFailed => (JoinFinishOutcome::Reverted, effects),
                JoinCompletion::NodeFailed => {
                    effects.push(Effect::DisconnectVoice { channel: s.channel });
                    proof {
                        assert(effects@ =~= step.2);
                    }
                    (JoinFinishOutcome::Reverted, effects)
                },
                JoinCompletion::Ready { session } => {
                    s.state = ConnectionState::Connected;
                    s.node_session = Some(session);
                    s.generation = self.next_generation;
                    self.next_generation = if self.next_generation == u64::MAX {
                        u64::MAX
                    } else {
                        self.next_generation + 1
                    };
                    proof {
                        assert(s@ =~= step.0->0);
                    }
                    self.table.insert(guild, s);
                    (JoinFinishOutcome::Connected, effects)
                },
            }
        } else {
            match completion {
                JoinCompletion::Ready { session } => {
                    effects.push(Effect::DestroyNodeSession { session });
                },
                _ => {},
            }
            proof {
                assert(effects@ =~= step.2);
            }
            (JoinFinishOutcome::Stale, effects)
        }
    }

    /// Leaves the voice channel; see [`crate::session::leave_step`]. With
    /// no session present, nothing is performed at all.
    pub fn leave(&mut self, guild: u64) -> (r: (Result<(), CommandError>, Vec<Effect>))
        requires
            old(self).inv(),
        ensures
            final(self).inv(),
            final(self).gen_counter() == old(self).gen_counter(),
            ({
                let (s2, out, eff) = leave_step(old(self).opt_view(guild));
                &&& r.0 == out
                &&& r.1@ == eff
                &&& final(self).opt_view(guild) == s2
            }),
            forall|g2: u64| g2 != guild ==> final(self).opt_view(g2) == old(self).opt_view(g2),
    {
        let ghost step = leave_step(old(self).opt_view(guild));
        let mut effects: Vec<Effect> = Vec::new();
        match self.table.remove(&guild) {
            Some(s) => {
                match s.node_session {
                    Some(sid) => effects.push(Effect::DestroyNodeSession { session: sid }),
                    None => {},
                }
                effects.push(Effect::DisconnectVoice { channel: s.channel });
                proof {
                    assert(effects@ =~= step.2);
                }
                (Ok(()), effects)
            },
            None => (Err(CommandError::NoActiveSession), effects),
        }
    }

    /// Checks whether an enqueue may start and hands out the epoch ticket
    /// its resolution must answer; see [`crate::session::enqueue_ticket`].
    pub fn enqueue_begin(&self, guild: u64) -> (r: Result<u64, CommandError>)
        ensures
            r == enqueue_ticket(self.opt_view(guild)),
    {
        match self.table.get(&guild) {
            Some(s) => if s.state == ConnectionState::Connected {
                Ok(s.generation)
            } else {
                Err(CommandError::NotInVoiceChannel)
            },
            None => Err(CommandError::NotInVoiceChannel),
        }
    }

    /// Applies a finished query resolution; see
    /// [`crate::session::enqueue_apply_step`]. `None` for `resolution`
    /// reports an unreachable node.
    pub fn enqueue_apply(
        &mut self,
        guild: u64,
        ticket: u64,
        resolution: Option<Vec<Track>>,
    ) -> (r: (Result<EnqueueOutcome, CommandError>, Vec<Effect>))
        requires
            old(self).inv(),
        ensures
            final(self).inv(),
            final(self).gen_counter() == old(self).gen_counter(),
            ({
                let res = match resolution {
                    Some(ts) => Some(ts@),
                    None => None::<Seq<Track>>,
                };
                let (s2, out, eff) = enqueue_apply_step(old(self).opt_view(guild), ticket, res);
                &&& r.0 == out
                &&& r.1@ == eff
                &&& final(self).opt_view(guild) == s2
            }),
            forall|g2: u64| g2 != guild ==> final(self).opt_view(g2) == old(self).opt_view(g2),
    {
        let ghost res = match &resolution {
            Some(ts) => Some(ts@),
            None => None::<Seq<Track>>,
        };
        let ghost step = enqueue_apply_step(old(self).opt_view(guild), ticket, res);
        let mut effects: Vec<Effect> = Vec::new();
        let live = match self.table.get(&guild) {
            Some(s) => s.state == ConnectionState::Connected && s.generation == ticket,
            None => false,
        };
        if !live {
            return (Ok(EnqueueOutcome::Stale), effects);
        }
        let mut tracks = match resolution {
            Some(ts) => ts,
            None => {
                return (Err(CommandError::NodeUnavailable), effects);
            },
        };
        if tracks.len() == 0 {
            return (Err(CommandError::QueryResolutionEmpty), effects);
        }
        let total = tracks.len();
        let mut s = self.table.remove(&guild).unwrap();
        let started_first = s.now_playing.is_none();
        if started_first {
            let first = tracks.remove(0);
            effects.push(Effect::Play { session: s.node_session.unwrap(), track: first.clone() });
            s.now_playing = Some(first);
            s.paused = false;
        }
        let ghost base = s@;
        let ghost pending = tracks@;
        while tracks.len() > 0
            invariant
                s@ == (SessionView { queue: s.queue@, ..base }),
                s.queue@ + tracks@ == base.queue + pending,
            decreases tracks.len(),
        {
            let t = tracks.remove(0);
            let ghost before = s.queue@;
            let ghost rest = tracks@;
            s.queue.push_tail(t);
            proof {
                assert(s@ =~= (SessionView { queue: s.queue@, ..base }));
                assert(s.queue@ + tracks@ =~= (before + rest.insert(0, t)));
                assert(before + rest.insert(0, t) =~= (before.push(t) + rest));
            }
        }
        proof {
            assert(s.queue@ =~= base.queue + pending);
            assert(s@ =~= step.0->0);
            assert(effects@ =~= step.2);
        }
        self.table.insert(guild, s);
        let outcome = if started_first {
            EnqueueOutcome::Started { queued: total - 1 }
        } else {
            EnqueueOutcome::Appended { count: total }
        };
        (Ok(outcome), effects)
    }

    /// Skips up to `count` tracks; see [`crate::session::skip_step`].
    pub fn skip(&mut self, guild: u64, count: u64) -> (r: (
        Result<SkipReport, CommandError>,
        Vec<Effect>,
    ))
        requires
            old(self).inv(),
        ensures
            final(self).inv(),
            final(self).gen_counter() == old(self).gen_counter(),
            ({
                let (s2, out, eff) = skip_step(old(self).opt_view(guild), count);
                &&& r.0 == out
                &&& r.1@ == eff
                &&& final(self).opt_view(guild) == s2
            }),
            forall|g2: u64| g2 != guild ==> final(self).opt_view(g2) == old(self).opt_view(g2),
    {
        let ghost step = skip_step(old(self).opt_view(guild), count);
        let mut effects: Vec<Effect> = Vec::new();
        if count == 0 {
            return (Err(CommandError::InvalidArgument), effects);
        }
        let connected = match self.table.get(&guild) {
            Some(s) => s.state == ConnectionState::Connected,
            None => false,
        };
        if !connected {
            return (Err(CommandError::NoActiveSession), effects);
        }
        let mut s = self.table.remove(&guild).unwrap();
        let ghost v0 = s@;
        let mut advances: u64 = 0;
        let mut i: u64 = 0;
        while i < count
            invariant
                i <= count,
                advances <= i,
                s@ == v0.skipped(i as nat),
                s.state == v0.state,
                s.node_session == v0.node_session,
                v0.state is Connected,
                v0.node_session is Some,
                effects@ == v0.skip_effects(i as nat),
                advances == v0.skip_advances(i as nat),
                s.queue@ == (if i as nat <= v0.queue.len() {
                    v0.queue.skip(i as int)
                } else {
                    Seq::<Track>::empty()
                }),
                i >= 1 ==> !s.paused,
            decreases count - i,
        {
            let ghost cur = s@;
            let sid = s.node_session.unwrap();
            if s.now_playing.is_some() {
                effects.push(Effect::Stop { session: sid });
            }
            match s.queue.pop_head() {
                Some(t) => {
                    effects.push(Effect::Play { session: sid, track: t.clone() });
                    s.now_playing = Some(t);
                    s.paused = false;
                    advances = advances + 1;
                },
                None => {
                    s.now_playing = None;
                    s.paused = false;
                },
            }
            proof {
                assert(s@ =~= cur.advanced());
                crate::session::lemma_skipped_snoc(v0, (i + 1) as nat);
                assert(effects@ =~= v0.skip_effects(i as nat) + cur.advance_effects());
                crate::session::lemma_skip_effects_snoc(v0, (i + 1) as nat);
                if cur.queue.len() > 0 {
                    assert(s.queue@ =~= v0.queue.skip(i + 1));
                } else {
                    assert(s.queue@ =~= Seq::<Track>::empty());
                }
            }
            i = i + 1;
        }
        proof {
            assert(s@ =~= step.0->0);
        }
        self.table.insert(guild, s);
        (Ok(SkipReport { advanced: advances, exhausted: count - advances }), effects)
    }

    /// Pauses the current track; see [`crate::session::pause_step`].
    pub fn pause(&mut self, guild: u64) -> (r: (Result<PlaybackChange, CommandError>, Vec<Effect>))
        requires
            old(self).inv(),
        ensures
            final(self).inv(),
            final(self).gen_counter() == old(self).gen_counter(),
            ({
                let (s2, out, eff) = pause_step(old(self).opt_view(guild));
                &&& r.0 == out
                &&& r.1@ == eff
                &&& final(self).opt_view(guild) == s2
            }),
            forall|g2: u64| g2 != guild ==> final(self).opt_view(g2) == old(self).opt_view(g2),
    {
        let ghost step = pause_step(old(self).opt_view(guild));
        let mut effects: Vec<Effect> = Vec::new();
        let applies = match self.table.get(&guild) {
            Some(s) => {
                if s.state != ConnectionState::Connected {
                    Err(CommandError::NoActiveSession)
                } else if s.now_playing.is_none() {
                    Ok(false)
                } else if s.paused {
                    Err(CommandError::AlreadyInRequestedState)
                } else {
                    Ok(true)
                }
            },
            None => Err(CommandError::NoActiveSession),
        };
        match applies {
            Err(e) => (Err(e), effects),
            Ok(false) => (Ok(PlaybackChange::NothingPlaying), effects),
            Ok(true) => {
                let mut s = self.table.remove(&guild).unwrap();
                effects.push(Effect::Pause { session: s.node_session.unwrap() });
                s.paused = true;
                proof {
                    assert(s@ =~= step.0->0);
                    assert(effects@ =~= step.2);
                }
                self.table.insert(guild, s);
                (Ok(PlaybackChange::Applied), effects)
            },
        }
    }

    /// Resumes the current track; see [`crate::session::resume_step`].
    pub fn resume(&mut self, guild: u64) -> (r: (Result<PlaybackChange, CommandError>, Vec<Effect>))
        requires
            old(self).inv(),
        ensures
            final(self).inv(),
            final(self).gen_counter() == old(self).gen_counter(),
            ({
                let (s2, out, eff) = resume_step(old(self).opt_view(guild));
                &&& r.0 == out
                &&& r.1@ == eff
                &&& final(self).opt_view(guild) == s2
            }),
            forall|g2: u64| g2 != guild ==> final(self).opt_view(g2) == old(self).opt_view(g2),
    {
        let ghost step = resume_step(old(self).opt_view(guild));
        let mut effects: Vec<Effect> = Vec::new();
        let applies = match self.table.get(&guild) {
            Some(s) => {
                if s.state != ConnectionState::Connected {
                    Err(CommandError::NoActiveSession)
                } else if s.now_playing.is_none() {
                    Ok(false)
                } else if !s.paused {
                    Err(CommandError::AlreadyInRequestedState)
                } else {
                    Ok(true)
                }
            },
            None => Err(CommandError::NoActiveSession),
        };
        match applies {
            Err(e) => (Err(e), effects),
            Ok(false) => (Ok(PlaybackChange::NothingPlaying), effects),
            Ok(true) => {
                let mut s = self.table.remove(&guild).unwrap();
                effects.push(Effect::Resume { session: s.node_session.unwrap() });
                s.paused = false;
                proof {
                    assert(s@ =~= step.0->0);
                    assert(effects@ =~= step.2);
                }
                self.table.insert(guild, s);
                (Ok(PlaybackChange::Applied), effects)
            },
        }
    }

    /// Halts playback without touching queue or connection; see
    /// [`crate::session::stop_step`].
    pub fn stop(&mut self, guild: u64) -> (r: (Result<PlaybackChange, CommandError>, Vec<Effect>))
        requires
            old(self).inv(),
        ensures
            final(self).inv(),
            final(self).gen_counter() == old(self).gen_counter(),
            ({
                let (s2, out, eff) = stop_step(old(self).opt_view(guild));
                &&& r.0 == out
                &&& r.1@ == eff
                &&& final(self).opt_view(guild) == s2
            }),
            forall|g2: u64| g2 != guild ==> final(self).opt_view(g2) == old(self).opt_view(g2),
    {
        let ghost step = stop_step(old(self).opt_view(guild));
        let mut effects: Vec<Effect> = Vec::new();
        let applies = match self.table.get(&guild) {
            Some(s) => {
                if s.state != ConnectionState::Connected {
                    Err(CommandError::NoActiveSession)
                } else if s.now_playing.is_none() {
                    Ok(false)
                } else {
                    Ok(true)
                }
            },
            None => Err(CommandError::NoActiveSession),
        };
        match applies {
            Err(e) => (Err(e), effects),
            Ok(false) => (Ok(PlaybackChange::NothingPlaying), effects),
            Ok(true) => {
                let mut s = self.table.remove(&guild).unwrap();
                effects.push(Effect::Stop { session: s.node_session.unwrap() });
                s.now_playing = None;
                s.paused = false;
                proof {
                    assert(s@ =~= step.0->0);
                    assert(effects@ =~= step.2);
                }
                self.table.insert(guild, s);
                (Ok(PlaybackChange::Applied), effects)
            },
        }
    }

    /// Empties the queue and answers how many tracks were dropped; see
    /// [`crate::session::clear_step`].
    pub fn clear_queue(&mut self, guild: u64) -> (r: (Result<usize, CommandError>, Vec<Effect>))
        requires
            old(self).inv(),
        ensures
            final(self).inv(),
            final(self).gen_counter() == old(self).gen_counter(),
            ({
                let (s2, out, eff) = clear_step(old(self).opt_view(guild));
                &&& r.0 == out
                &&& r.1@ == eff
                &&& final(self).opt_view(guild) == s2
            }),
            final(self).connection_state(guild) == old(self).connection_state(guild),
            forall|g2: u64| g2 != guild ==> final(self).opt_view(g2) == old(self).opt_view(g2),
    {
        let ghost step = clear_step(old(self).opt_view(guild));
        let effects: Vec<Effect> = Vec::new();
        match self.table.remove(&guild) {
            Some(mut s) => {
                let dropped = s.queue.clear();
                proof {
                    assert(s@ =~= step.0->0);
                }
                self.table.insert(guild, s);
                (Ok(dropped), effects)
            },
            None => (Err(CommandError::NoActiveSession), effects),
        }
    }

    /// The read-only now-playing answer; see
    /// [`crate::session::now_playing_of`].
    pub fn now_playing(&self, guild: u64) -> (r: NowPlayingStatus)
        ensures
            r == now_playing_of(self.opt_view(guild)),
    {
        match self.table.get(&guild) {
            Some(s) => match &s.now_playing {
                Some(t) => NowPlayingStatus::Playing { track: t.clone(), paused: s.paused },
                None => NowPlayingStatus::Idle,
            },
            None => NowPlayingStatus::Idle,
        }
    }

    /// Applies one unsolicited node event; see
    /// [`crate::session::event_step`]. A finish or error for the current
    /// track advances playback as a single skip would.
    pub fn handle_node_event(&mut self, guild: u64, ev: NodeEvent) -> (r: (
        EventOutcome,
        Vec<Effect>,
    ))
        requires
            old(self).inv(),
        ensures
            final(self).inv(),
            final(self).gen_counter() == old(self).gen_counter(),
            ({
                let (s2, out, eff) = event_step(old(self).opt_view(guild), ev);
                &&& r.0 == out
                &&& r.1@ == eff
                &&& final(self).opt_view(guild) == s2
            }),
            forall|g2: u64| g2 != guild ==> final(self).opt_view(g2) == old(self).opt_view(g2),
    {
        let ghost step = event_step(old(self).opt_view(guild), ev);
        let mut effects: Vec<Effect> = Vec::new();
        let decision = match self.table.get(&guild) {
            Some(s) => {
                let current = s.state == ConnectionState::Connected && match s.node_session {
                    Some(sid) => sid == ev.session,
                    None => false,
                };
                if !current {
                    0u8
                } else if ev.kind == NodeEventKind::TrackStart {
                    1u8
                } else {
                    match &s.now_playing {
                        Some(t) => if t.id == ev.track_id {
                            2u8
                        } else {
                            0u8
                        },
                        None => 0u8,
                    }
                }
            },
            None => 0u8,
        };
        if decision == 0 {
            (EventOutcome::Discarded, effects)
        } else if decision == 1 {
            (EventOutcome::Acknowledged, effects)
        } else {
            let mut s = self.table.remove(&guild).unwrap();
            let ghost cur = s@;
            let sid = s.node_session.unwrap();
            match s.queue.pop_head() {
                Some(t) => {
                    effects.push(Effect::Play { session: sid, track: t.clone() });
                    s.now_playing = Some(t);
                    s.paused = false;
                },
                None => {
                    s.now_playing = None;
                    s.paused = false;
                },
            }
            proof {
                assert(s@ =~= cur.advanced());
                assert(s@ =~= step.0->0);
                assert(effects@ =~= step.2);
            }
            self.table.insert(guild, s);
            let failed = ev.kind == NodeEventKind::TrackError;
            (EventOutcome::Advanced { failed }, effects)
        }
    }
}

/// How a finished leave is reported, given whether each teardown step
/// succeeded; failures never block the removal that already happened.
pub fn leave_report(node_ok: bool, transport_ok: bool) -> (r: Result<(), CommandError>)
    ensures
        r == leave_report_step(node_ok, transport_ok),
{
    if node_ok && transport_ok {
        Ok(())
    } else {
        Err(CommandError::PartialTeardownFailure)
    }
}

} // verus!
