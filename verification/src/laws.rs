//! Laws of the session model that relate several operations to one
//! another, proved once and for all over the step functions of
//! [`crate::session`]. The manager's contracts tie each executable
//! operation to exactly those step functions, so these statements carry
//! over to any sequence of calls.

use vstd::prelude::*;
use crate::protocol::{
    CommandError, Effect, EnqueueOutcome, EventOutcome, JoinCompletion, JoinFinishOutcome,
    NodeEvent, PlaybackChange,
};
use crate::session::{
    enqueue_apply_step, event_step, finish_effects, join_begin_step, join_finish_step, pause_step,
    SessionView,
};
use crate::track::Track;

verus! {

/// Joining twice in immediate succession creates exactly one node
/// session. However the first join found the guild, once it has
/// proceeded and its completion has connected the session, a repeated
/// join to the same channel answers `AlreadyConnected`, changes nothing
/// and performs nothing — in particular it asks for no second node
/// session. A first join that itself answered `AlreadyConnected` had
/// already changed and performed nothing.
pub proof fn lemma_join_twice(s0: Option<SessionView>, channel: u64, session: u64, generation: u64)
    requires
        s0 is Some ==> s0->0.wf(),
    ensures
        ({
            let (s1, out1, eff1) = join_begin_step(s0, channel);
            out1 is Ok ==> {
                let (s2, out2, eff2) = join_finish_step(
                    s1,
                    JoinCompletion::Ready { session },
                    generation,
                );
                let (s3, out3, eff3) = join_begin_step(s2, channel);
                &&& out2 == JoinFinishOutcome::Connected
                &&& out3 == Err::<(), CommandError>(CommandError::AlreadyConnected)
                &&& s3 == s2
                &&& eff3 == Seq::<Effect>::empty()
            }
        }),
        ({
            let (s1, out1, eff1) = join_begin_step(s0, channel);
            out1 is Err ==> {
                &&& out1 == Err::<(), CommandError>(CommandError::AlreadyConnected)
                &&& s1 == s0
                &&& eff1 == Seq::<Effect>::empty()
            }
        }),
{
}

/// Pausing twice in a row: the first call applies, raises the pause flag
/// and issues exactly one node command; the second answers
/// `AlreadyInRequestedState`, changes nothing and issues no second node
/// command.
pub proof fn lemma_pause_twice(v: SessionView)
    requires
        v.state is Connected,
        v.now_playing is Some,
        !v.paused,
    ensures
        ({
            let (s1, out1, eff1) = pause_step(Some(v));
            let (s2, out2, eff2) = pause_step(s1);
            &&& out1 == Ok::<PlaybackChange, CommandError>(PlaybackChange::Applied)
            &&& s1 == Some(SessionView { paused: true, ..v })
            &&& eff1 == seq![Effect::Pause { session: v.sid() }]
            &&& out2 == Err::<PlaybackChange, CommandError>(CommandError::AlreadyInRequestedState)
            &&& s2 == s1
            &&& eff2 == Seq::<Effect>::empty()
        }),
{
}

/// A finish — or error — event for the currently playing track advances
/// playback exactly as a skip by one would: the records agree, and all
/// the event dispatches is the new queue head, the halting of the ended
/// track being unnecessary.
pub proof fn lemma_finish_advances_once(v: SessionView, ev: NodeEvent)
    requires
        v.state is Connected,
        v.node_session == Some(ev.session),
        v.now_playing is Some,
        v.now_playing->0.id == ev.track_id,
        !(ev.kind is TrackStart),
    ensures
        ({
            let (s1, out1, eff1) = event_step(Some(v), ev);
            &&& s1 == Some(v.skipped(1))
            &&& out1 == (EventOutcome::Advanced { failed: ev.kind is TrackError })
            &&& eff1 == finish_effects(v)
        }),
{
    reveal_with_fuel(SessionView::skipped, 2);
}

/// Skipping past the whole queue: more attempted advances than queued
/// tracks always end with nothing playing and an empty queue — never
/// with an error.
pub proof fn lemma_skip_exhausts(v: SessionView, n: nat)
    requires
        n > v.queue.len(),
    ensures
        v.skipped(n).now_playing is None,
        v.skipped(n).queue.len() == 0,
        !v.skipped(n).paused,
    decreases n,
{
    reveal_with_fuel(SessionView::skipped, 2);
    if n > 1 {
        lemma_skip_exhausts(v.advanced(), (n - 1) as nat);
    }
}

/// Skipping within the queue: after `n` advances the `n`-th queued track
/// plays, the first `n` queued tracks are gone, and the remainder keeps
/// its order.
pub proof fn lemma_skip_within(v: SessionView, n: nat)
    requires
        1 <= n <= v.queue.len(),
    ensures
        v.skipped(n).now_playing == Some(v.queue[n - 1]),
        v.skipped(n).queue == v.queue.skip(n as int),
        !v.skipped(n).paused,
    decreases n,
{
    reveal_with_fuel(SessionView::skipped, 2);
    if n == 1 {
        assert(v.skipped(1nat).queue =~= v.queue.skip(1));
    } else {
        lemma_skip_within(v.advanced(), (n - 1) as nat);
        assert(v.advanced().queue.skip(n - 1) =~= v.queue.skip(n as int));
        assert(v.advanced().queue[n - 2] == v.queue[n - 1]);
    }
}

/// An asynchronous resolution that answers an earlier session epoch —
/// the session was left, re-created or is mid-move — is discarded rather
/// than applied: whatever tracks it carries, nothing changes and nothing
/// is performed.
pub proof fn lemma_stale_resolution_discarded(
    v: SessionView,
    ticket: u64,
    resolution: Option<Seq<Track>>,
)
    requires
        v.generation != ticket || !(v.state is Connected),
    ensures
        ({
            let (s1, out1, eff1) = enqueue_apply_step(Some(v), ticket, resolution);
            &&& s1 == Some(v)
            &&& out1 == Ok::<EnqueueOutcome, CommandError>(EnqueueOutcome::Stale)
            &&& eff1 == Seq::<Effect>::empty()
        }),
{
}

/// A node event naming anything but the guild's current node session is
/// discarded: nothing changes and nothing is performed.
pub proof fn lemma_stale_event_discarded(v: SessionView, ev: NodeEvent)
    requires
        v.node_session != Some(ev.session) || !(v.state is Connected),
    ensures
        ({
            let (s1, out1, eff1) = event_step(Some(v), ev);
            &&& s1 == Some(v)
            &&& out1 == EventOutcome::Discarded
            &&& eff1 == Seq::<Effect>::empty()
        }),
{
}

/// Tracks enqueued behind a playing one land at the queue's tail in
/// resolved order: consecutive enqueues preserve their call order, which
/// is the playback order.
pub proof fn lemma_enqueue_order(v: SessionView, ticket: u64, first: Seq<Track>, second: Seq<Track>)
    requires
        v.state is Connected,
        v.generation == ticket,
        v.now_playing is Some,
        first.len() > 0,
        second.len() > 0,
    ensures
        ({
            let (s1, out1, eff1) = enqueue_apply_step(
                Some(v),
                ticket,
                Some(first),
            );
            let (s2, out2, eff2) = enqueue_apply_step(s1, ticket, Some(second));
            s2 == Some(SessionView { queue: v.queue + first + second, ..v })
        }),
{
    let (s1, out1, eff1) = enqueue_apply_step(Some(v), ticket, Some(first));
    let (s2, out2, eff2) = enqueue_apply_step(s1, ticket, Some(second));
    assert(s2->0 =~= SessionView { queue: v.queue + first + second, ..v });
}

} // verus!
