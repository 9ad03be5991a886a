use beatbot::errors::BotError;
use beatbot::queue::{QueuedTrack, TrackMeta};
use beatbot::session::{JoinOutcome, SessionRegistry, SessionState, TeardownStep};

fn meta(title: &str) -> TrackMeta {
    TrackMeta {
        title: title.to_string(),
        author: "Artist".to_string(),
        uri: Some("https://example.invalid/t".to_string()),
        artwork_url: None,
        length_ms: 120_000,
    }
}

fn queued(title: &str) -> QueuedTrack {
    QueuedTrack { track: meta(title), requester_id: 9 }
}

fn active_registry(guild: u64) -> SessionRegistry {
    let mut reg = SessionRegistry::new();
    let r = reg.request_join(guild, 42, None, Some(7), 100).unwrap();
    assert!(matches!(r, JoinOutcome::Connect { voice_channel: 7 }));
    assert!(reg.complete_join(guild, 100));
    reg
}

#[test]
fn join_without_any_channel_is_not_in_voice() {
    let mut reg = SessionRegistry::new();
    let r = reg.request_join(1, 42, None, None, 100);
    assert!(matches!(r, Err(BotError::NotInVoice)));
    assert!(reg.get(1).is_none());
}

#[test]
fn join_prefers_the_explicit_channel() {
    let mut reg = SessionRegistry::new();
    let r = reg.request_join(1, 42, Some(5), Some(7), 100).unwrap();
    assert!(matches!(r, JoinOutcome::Connect { voice_channel: 5 }));
    let s = reg.get(1).unwrap();
    assert_eq!(s.voice_channel_id, 5);
    assert_eq!(s.text_channel_id, 42);
    assert!(matches!(s.state, SessionState::Connecting));
}

#[test]
fn join_when_present_reports_already_present() {
    let mut reg = active_registry(1);
    let r = reg.request_join(1, 99, None, Some(8), 100).unwrap();
    assert!(matches!(r, JoinOutcome::AlreadyPresent));
    assert_eq!(reg.get(1).unwrap().text_channel_id, 42);
}

#[test]
fn complete_join_activates_and_applies_volume() {
    let mut reg = SessionRegistry::new();
    reg.request_join(1, 42, None, Some(7), 100).unwrap();
    assert!(reg.complete_join(1, 150));
    let s = reg.get(1).unwrap();
    assert!(matches!(s.state, SessionState::Active));
    assert_eq!(s.volume, 150);
    assert!(!reg.complete_join(1, 150));
}

#[test]
fn abort_join_retains_no_partial_session() {
    let mut reg = SessionRegistry::new();
    reg.request_join(1, 42, None, Some(7), 100).unwrap();
    assert!(reg.abort_join(1));
    assert!(reg.get(1).is_none());
    assert!(!reg.abort_join(1));
}

#[test]
fn teardown_runs_delete_then_release_exactly_once() {
    let mut reg = active_registry(1);
    let steps = reg.begin_teardown(1).unwrap();
    assert_eq!(steps, vec![TeardownStep::DeletePlayer, TeardownStep::ReleaseVoice]);
    assert!(reg.begin_teardown(1).is_none());
    reg.finish_teardown(1);
    assert!(reg.get(1).is_none());
    assert!(reg.begin_teardown(1).is_none());
}

#[test]
fn teardown_of_absent_guild_noops() {
    let mut reg = SessionRegistry::new();
    assert!(reg.begin_teardown(3).is_none());
    reg.finish_teardown(3);
    assert!(reg.get(3).is_none());
}

#[test]
fn queue_ops_need_an_active_session() {
    let mut reg = SessionRegistry::new();
    assert!(matches!(reg.queue_append(1, vec![queued("a")]), Err(BotError::NoActiveSession)));
    assert!(matches!(reg.queue_remove_at(1, 0), Err(BotError::NoActiveSession)));
    assert!(matches!(reg.queue_clear(1), Err(BotError::NoActiveSession)));
    reg.request_join(1, 42, None, Some(7), 100).unwrap();
    // Still connecting: commands must not reach into a half-created session.
    assert!(matches!(reg.queue_append(1, vec![queued("a")]), Err(BotError::NoActiveSession)));
}

#[test]
fn queue_ops_reach_the_session_queue() {
    let mut reg = active_registry(1);
    let a = reg.queue_append(1, vec![queued("a"), queued("b"), queued("c")]).unwrap();
    assert_eq!(a.admitted, 3);
    assert_eq!(a.rejected, 0);
    assert_eq!(reg.get(1).unwrap().queue.count(), 3);
    let removed = reg.queue_remove_at(1, 1).unwrap();
    assert_eq!(removed.track.title, "b");
    assert!(matches!(reg.queue_remove_at(1, 5), Err(BotError::IndexOutOfRange)));
    reg.queue_clear(1).unwrap();
    assert_eq!(reg.get(1).unwrap().queue.count(), 0);
}

#[test]
fn append_after_teardown_fails_cleanly() {
    let mut reg = active_registry(1);
    reg.begin_teardown(1).unwrap();
    assert!(matches!(reg.queue_append(1, vec![queued("a")]), Err(BotError::NoActiveSession)));
    reg.finish_teardown(1);
    assert!(matches!(reg.queue_append(1, vec![queued("a")]), Err(BotError::NoActiveSession)));
}

#[test]
fn guilds_do_not_interfere() {
    let mut reg = active_registry(1);
    let r = reg.request_join(2, 50, None, Some(9), 10).unwrap();
    assert!(matches!(r, JoinOutcome::Connect { voice_channel: 9 }));
    reg.complete_join(2, 80);
    reg.queue_append(1, vec![queued("a")]).unwrap();
    assert_eq!(reg.get(1).unwrap().queue.count(), 1);
    assert_eq!(reg.get(2).unwrap().queue.count(), 0);
    reg.begin_teardown(2).unwrap();
    reg.finish_teardown(2);
    assert!(reg.get(2).is_none());
    assert_eq!(reg.get(1).unwrap().queue.count(), 1);
}

#[test]
fn queue_ops_leave_the_rest_of_the_session_alone() {
    let mut reg = active_registry(1);
    reg.note_now_playing(1, Some(meta("current")));
    reg.queue_append(1, vec![queued("a"), queued("b")]).unwrap();
    reg.queue_remove_at(1, 0).unwrap();
    reg.queue_clear(1).unwrap();
    let s = reg.get(1).unwrap();
    assert_eq!(s.volume, 100);
    assert_eq!(s.text_channel_id, 42);
    assert_eq!(s.voice_channel_id, 7);
    assert!(matches!(s.state, SessionState::Active));
    assert_eq!(s.current_track.as_ref().unwrap().title, "current");
    assert_eq!(s.queue.max_len(), 100);
    assert_eq!(s.queue.count(), 0);
}

#[test]
fn the_mirror_update_leaves_the_queue_alone() {
    let mut reg = active_registry(1);
    reg.queue_append(1, vec![queued("a"), queued("b")]).unwrap();
    reg.note_now_playing(1, Some(meta("current")));
    let s = reg.get(1).unwrap();
    assert_eq!(s.queue.count(), 2);
    assert_eq!(s.queue.peek_at(0).unwrap().track.title, "a");
    assert_eq!(s.volume, 100);
}

#[test]
fn now_playing_mirror_follows_reports() {
    let mut reg = active_registry(1);
    assert!(reg.get(1).unwrap().current_track.is_none());
    reg.note_now_playing(1, Some(meta("x")));
    assert_eq!(reg.get(1).unwrap().current_track.as_ref().unwrap().title, "x");
    reg.note_now_playing(1, None);
    assert!(reg.get(1).unwrap().current_track.is_none());
}
