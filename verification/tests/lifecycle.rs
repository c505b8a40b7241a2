//! Connection lifecycle: joining, completing a join, moving, leaving.

use jukebox::manager::{leave_report, VoiceSessionManager};
use jukebox::protocol::{
    CommandError, Effect, JoinCompletion, JoinFinishOutcome, NowPlayingStatus,
};

fn creates(effects: &[Effect]) -> usize {
    effects
        .iter()
        .filter(|e| matches!(e, Effect::CreateNodeSession { .. }))
        .count()
}

#[test]
fn join_twice_creates_one_node_session() {
    let mut m = VoiceSessionManager::new();
    let (out1, eff1) = m.join_begin(7, 100);
    assert_eq!(out1, Ok(()));
    assert_eq!(
        eff1,
        vec![
            Effect::ConnectVoice { channel: 100 },
            Effect::CreateNodeSession { channel: 100 },
        ]
    );
    let (fin, eff_fin) = m.join_finish(7, JoinCompletion::Ready { session: 55 });
    assert_eq!(fin, JoinFinishOutcome::Connected);
    assert!(eff_fin.is_empty());

    let (out2, eff2) = m.join_begin(7, 100);
    assert_eq!(out2, Err(CommandError::AlreadyConnected));
    assert!(eff2.is_empty());
    assert_eq!(creates(&eff1) + creates(&eff2), 1);
}

#[test]
fn join_transport_failure_reverts() {
    let mut m = VoiceSessionManager::new();
    let (out, _) = m.join_begin(7, 100);
    assert_eq!(out, Ok(()));
    let (fin, eff) = m.join_finish(7, JoinCompletion::TransportFailed);
    assert_eq!(fin, JoinFinishOutcome::Reverted);
    assert!(eff.is_empty());
    assert_eq!(m.enqueue_begin(7), Err(CommandError::NotInVoiceChannel));
}

#[test]
fn join_node_failure_disconnects_transport() {
    let mut m = VoiceSessionManager::new();
    let (out, _) = m.join_begin(7, 100);
    assert_eq!(out, Ok(()));
    let (fin, eff) = m.join_finish(7, JoinCompletion::NodeFailed);
    assert_eq!(fin, JoinFinishOutcome::Reverted);
    assert_eq!(eff, vec![Effect::DisconnectVoice { channel: 100 }]);
    assert_eq!(m.enqueue_begin(7), Err(CommandError::NotInVoiceChannel));
}

#[test]
fn stale_join_completion_destroys_orphan_session() {
    let mut m = VoiceSessionManager::new();
    let (fin, eff) = m.join_finish(7, JoinCompletion::Ready { session: 31 });
    assert_eq!(fin, JoinFinishOutcome::Stale);
    assert_eq!(eff, vec![Effect::DestroyNodeSession { session: 31 }]);
}

#[test]
fn join_other_channel_moves_connection() {
    let mut m = VoiceSessionManager::new();
    m.join_begin(7, 100);
    m.join_finish(7, JoinCompletion::Ready { session: 55 });
    let (out, eff) = m.join_begin(7, 200);
    assert_eq!(out, Ok(()));
    assert_eq!(
        eff,
        vec![
            Effect::DestroyNodeSession { session: 55 },
            Effect::DisconnectVoice { channel: 100 },
            Effect::ConnectVoice { channel: 200 },
            Effect::CreateNodeSession { channel: 200 },
        ]
    );
    let (fin, _) = m.join_finish(7, JoinCompletion::Ready { session: 56 });
    assert_eq!(fin, JoinFinishOutcome::Connected);
    assert_eq!(m.join_begin(7, 200).0, Err(CommandError::AlreadyConnected));
}

#[test]
fn leave_without_session_performs_nothing() {
    let mut m = VoiceSessionManager::new();
    let (out, eff) = m.leave(7);
    assert_eq!(out, Err(CommandError::NoActiveSession));
    assert_eq!(eff.len(), 0);
}

#[test]
fn leave_tears_down_and_removes() {
    let mut m = VoiceSessionManager::new();
    m.join_begin(7, 100);
    m.join_finish(7, JoinCompletion::Ready { session: 55 });
    let (out, eff) = m.leave(7);
    assert_eq!(out, Ok(()));
    assert_eq!(
        eff,
        vec![
            Effect::DestroyNodeSession { session: 55 },
            Effect::DisconnectVoice { channel: 100 },
        ]
    );
    assert_eq!(m.now_playing(7), NowPlayingStatus::Idle);
    assert_eq!(m.enqueue_begin(7), Err(CommandError::NotInVoiceChannel));
    assert_eq!(m.leave(7).0, Err(CommandError::NoActiveSession));
}

#[test]
fn leave_report_distinguishes_partial_teardown() {
    assert_eq!(leave_report(true, true), Ok(()));
    assert_eq!(
        leave_report(false, true),
        Err(CommandError::PartialTeardownFailure)
    );
    assert_eq!(
        leave_report(true, false),
        Err(CommandError::PartialTeardownFailure)
    );
    assert_eq!(
        leave_report(false, false),
        Err(CommandError::PartialTeardownFailure)
    );
}

#[test]
fn distinct_guilds_do_not_disturb_each_other() {
    let mut m = VoiceSessionManager::new();
    m.join_begin(1, 10);
    m.join_finish(1, JoinCompletion::Ready { session: 5 });
    m.join_begin(2, 20);
    m.join_finish(2, JoinCompletion::Ready { session: 6 });
    let (out, _) = m.leave(1);
    assert_eq!(out, Ok(()));
    assert_eq!(m.join_begin(2, 20).0, Err(CommandError::AlreadyConnected));
    assert_eq!(m.enqueue_begin(1), Err(CommandError::NotInVoiceChannel));
}
