//! Queue and playback commands: enqueue, skip, pause, resume, stop,
//! clear.

use jukebox::manager::VoiceSessionManager;
use jukebox::protocol::{
    CommandError, Effect, EnqueueOutcome, JoinCompletion, NowPlayingStatus, PlaybackChange,
    SkipReport,
};
use jukebox::track::Track;

fn track(id: u64, title: &str) -> Track {
    Track {
        id,
        title: title.to_string(),
        source: format!("node://{id}"),
        duration_ms: Some(180_000),
        requester: 42,
    }
}

/// A manager with guild 1 joined to channel 10 on node session 9.
fn joined() -> (VoiceSessionManager, u64) {
    let mut m = VoiceSessionManager::new();
    m.join_begin(1, 10);
    m.join_finish(1, JoinCompletion::Ready { session: 9 });
    let ticket = m.enqueue_begin(1).unwrap();
    (m, ticket)
}

#[test]
fn enqueue_starts_immediately_when_idle() {
    let (mut m, ticket) = joined();
    let a = track(1, "A");
    let (out, eff) = m.enqueue_apply(1, ticket, Some(vec![a.clone()]));
    assert_eq!(out, Ok(EnqueueOutcome::Started { queued: 0 }));
    assert_eq!(eff, vec![Effect::Play { session: 9, track: a.clone() }]);
    assert_eq!(
        m.now_playing(1),
        NowPlayingStatus::Playing { track: a, paused: false }
    );
    let (cleared, _) = m.clear_queue(1);
    assert_eq!(cleared, Ok(0));
}

#[test]
fn enqueue_appends_in_call_order_while_playing() {
    let (mut m, ticket) = joined();
    let a = track(1, "A");
    m.enqueue_apply(1, ticket, Some(vec![a.clone()]));
    let (out_b, eff_b) = m.enqueue_apply(1, ticket, Some(vec![track(2, "B")]));
    assert_eq!(out_b, Ok(EnqueueOutcome::Appended { count: 1 }));
    assert!(eff_b.is_empty());
    let (out_c, _) = m.enqueue_apply(1, ticket, Some(vec![track(3, "C")]));
    assert_eq!(out_c, Ok(EnqueueOutcome::Appended { count: 1 }));
    assert_eq!(
        m.now_playing(1),
        NowPlayingStatus::Playing { track: a, paused: false }
    );
    // The queue plays back in exactly the order the calls made: B, then C.
    let (_, eff1) = m.skip(1, 1);
    assert_eq!(
        eff1,
        vec![
            Effect::Stop { session: 9 },
            Effect::Play { session: 9, track: track(2, "B") },
        ]
    );
    let (_, eff2) = m.skip(1, 1);
    assert_eq!(
        eff2,
        vec![
            Effect::Stop { session: 9 },
            Effect::Play { session: 9, track: track(3, "C") },
        ]
    );
}

#[test]
fn playlist_expansion_queues_the_rest() {
    let (mut m, ticket) = joined();
    let (out, eff) = m.enqueue_apply(
        1,
        ticket,
        Some(vec![track(1, "A"), track(2, "B"), track(3, "C")]),
    );
    assert_eq!(out, Ok(EnqueueOutcome::Started { queued: 2 }));
    assert_eq!(eff, vec![Effect::Play { session: 9, track: track(1, "A") }]);
    let (cleared, _) = m.clear_queue(1);
    assert_eq!(cleared, Ok(2));
}

#[test]
fn enqueue_empty_resolution_is_reported() {
    let (mut m, ticket) = joined();
    let (out, eff) = m.enqueue_apply(1, ticket, Some(vec![]));
    assert_eq!(out, Err(CommandError::QueryResolutionEmpty));
    assert!(eff.is_empty());
    assert_eq!(m.now_playing(1), NowPlayingStatus::Idle);
}

#[test]
fn enqueue_with_node_down_is_surfaced() {
    let (mut m, ticket) = joined();
    let (out, eff) = m.enqueue_apply(1, ticket, None);
    assert_eq!(out, Err(CommandError::NodeUnavailable));
    assert!(eff.is_empty());
}

#[test]
fn enqueue_needs_a_connected_session() {
    let m = VoiceSessionManager::new();
    assert_eq!(m.enqueue_begin(1), Err(CommandError::NotInVoiceChannel));
}

#[test]
fn stale_resolution_is_discarded_after_rejoin() {
    let (mut m, old_ticket) = joined();
    m.leave(1);
    m.join_begin(1, 10);
    m.join_finish(1, JoinCompletion::Ready { session: 11 });
    let (out, eff) = m.enqueue_apply(1, old_ticket, Some(vec![track(1, "A")]));
    assert_eq!(out, Ok(EnqueueOutcome::Stale));
    assert!(eff.is_empty());
    assert_eq!(m.now_playing(1), NowPlayingStatus::Idle);
    let fresh = m.enqueue_begin(1).unwrap();
    assert_ne!(fresh, old_ticket);
}

#[test]
fn skip_past_the_queue_reports_the_misses() {
    let (mut m, ticket) = joined();
    m.enqueue_apply(
        1,
        ticket,
        Some(vec![track(1, "A"), track(2, "B"), track(3, "C")]),
    );
    let (out, eff) = m.skip(1, 5);
    assert_eq!(out, Ok(SkipReport { advanced: 2, exhausted: 3 }));
    assert_eq!(
        eff,
        vec![
            Effect::Stop { session: 9 },
            Effect::Play { session: 9, track: track(2, "B") },
            Effect::Stop { session: 9 },
            Effect::Play { session: 9, track: track(3, "C") },
            Effect::Stop { session: 9 },
        ]
    );
    assert_eq!(m.now_playing(1), NowPlayingStatus::Idle);
    let (cleared, _) = m.clear_queue(1);
    assert_eq!(cleared, Ok(0));
}

#[test]
fn skip_zero_is_rejected() {
    let (mut m, _) = joined();
    let (out, eff) = m.skip(1, 0);
    assert_eq!(out, Err(CommandError::InvalidArgument));
    assert!(eff.is_empty());
}

#[test]
fn skip_without_session_is_rejected() {
    let mut m = VoiceSessionManager::new();
    let (out, _) = m.skip(1, 1);
    assert_eq!(out, Err(CommandError::NoActiveSession));
}

#[test]
fn pause_twice_issues_one_node_command() {
    let (mut m, ticket) = joined();
    let a = track(1, "A");
    m.enqueue_apply(1, ticket, Some(vec![a.clone()]));
    let (first, eff1) = m.pause(1);
    assert_eq!(first, Ok(PlaybackChange::Applied));
    assert_eq!(eff1, vec![Effect::Pause { session: 9 }]);
    assert_eq!(
        m.now_playing(1),
        NowPlayingStatus::Playing { track: a, paused: true }
    );
    let (second, eff2) = m.pause(1);
    assert_eq!(second, Err(CommandError::AlreadyInRequestedState));
    assert_eq!(eff2.len(), 0);
}

#[test]
fn resume_only_when_paused() {
    let (mut m, ticket) = joined();
    let a = track(1, "A");
    m.enqueue_apply(1, ticket, Some(vec![a.clone()]));
    assert_eq!(m.resume(1).0, Err(CommandError::AlreadyInRequestedState));
    m.pause(1);
    let (out, eff) = m.resume(1);
    assert_eq!(out, Ok(PlaybackChange::Applied));
    assert_eq!(eff, vec![Effect::Resume { session: 9 }]);
    assert_eq!(
        m.now_playing(1),
        NowPlayingStatus::Playing { track: a, paused: false }
    );
}

#[test]
fn pause_with_nothing_playing_is_a_no_op() {
    let (mut m, _) = joined();
    let (out, eff) = m.pause(1);
    assert_eq!(out, Ok(PlaybackChange::NothingPlaying));
    assert!(eff.is_empty());
    assert_eq!(m.pause(2).0, Err(CommandError::NoActiveSession));
}

#[test]
fn stop_halts_but_keeps_queue_and_connection() {
    let (mut m, ticket) = joined();
    m.enqueue_apply(1, ticket, Some(vec![track(1, "A"), track(2, "B")]));
    let (out, eff) = m.stop(1);
    assert_eq!(out, Ok(PlaybackChange::Applied));
    assert_eq!(eff, vec![Effect::Stop { session: 9 }]);
    assert_eq!(m.now_playing(1), NowPlayingStatus::Idle);
    // Still connected, and B still queued: distinct from a leave.
    assert_eq!(m.enqueue_begin(1), Ok(ticket));
    let (cleared, _) = m.clear_queue(1);
    assert_eq!(cleared, Ok(1));
}

#[test]
fn stop_with_nothing_playing_is_a_no_op() {
    let (mut m, _) = joined();
    let (out, eff) = m.stop(1);
    assert_eq!(out, Ok(PlaybackChange::NothingPlaying));
    assert!(eff.is_empty());
}

#[test]
fn clear_on_empty_queue_returns_zero_and_keeps_connection() {
    let (mut m, ticket) = joined();
    let (out, eff) = m.clear_queue(1);
    assert_eq!(out, Ok(0));
    assert!(eff.is_empty());
    // The connection state is untouched: the session still accepts work.
    assert_eq!(m.enqueue_begin(1), Ok(ticket));
    let mut idle = VoiceSessionManager::new();
    assert_eq!(idle.clear_queue(1).0, Err(CommandError::NoActiveSession));
}

#[test]
fn clear_does_not_touch_the_playing_track() {
    let (mut m, ticket) = joined();
    let a = track(1, "A");
    m.enqueue_apply(1, ticket, Some(vec![a.clone(), track(2, "B")]));
    let (out, _) = m.clear_queue(1);
    assert_eq!(out, Ok(1));
    assert_eq!(
        m.now_playing(1),
        NowPlayingStatus::Playing { track: a, paused: false }
    );
}
