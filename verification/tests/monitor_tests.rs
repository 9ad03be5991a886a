use beatbot::monitor::{
    IdleObservation, MonitorAction, MonitorPhase, VoiceMember, is_alone, monitor_tick,
};

fn idle_obs() -> IdleObservation {
    IdleObservation {
        config_readable: true,
        auto_disconnect_enabled: true,
        auto_disconnect_seconds: 300,
        session_exists: true,
        track_playing: false,
        queue_len: 0,
        alone: true,
    }
}

#[test]
fn alone_when_channel_is_empty() {
    assert!(is_alone(&Vec::new(), 99));
}

#[test]
fn alone_among_bots_only() {
    let members = vec![
        VoiceMember { user_id: 99, is_bot: true },
        VoiceMember { user_id: 5, is_bot: true },
    ];
    assert!(is_alone(&members, 99));
}

#[test]
fn not_alone_with_a_human_listener() {
    let members = vec![
        VoiceMember { user_id: 99, is_bot: true },
        VoiceMember { user_id: 5, is_bot: false },
    ];
    assert!(!is_alone(&members, 99));
}

#[test]
fn idle_detection_starts_the_configured_wait() {
    let (phase, action) = monitor_tick(MonitorPhase::Polling, &idle_obs());
    assert!(matches!(phase, MonitorPhase::Waiting));
    assert!(matches!(action, MonitorAction::StartWait(300)));
}

#[test]
fn sustained_idle_disconnects_exactly_once() {
    let (phase, action) = monitor_tick(MonitorPhase::Polling, &idle_obs());
    assert!(matches!(action, MonitorAction::StartWait(_)));
    // The confirmation re-check after the wait still finds everything idle.
    let (phase2, action2) = monitor_tick(phase, &idle_obs());
    assert!(matches!(action2, MonitorAction::Disconnect));
    assert!(matches!(phase2, MonitorPhase::Finished));
    // The monitor is finished: no further tick, so no second disconnect.
}

#[test]
fn playback_resuming_during_the_wait_aborts() {
    let (phase, _) = monitor_tick(MonitorPhase::Polling, &idle_obs());
    let mut busy = idle_obs();
    busy.track_playing = true;
    let (phase2, action2) = monitor_tick(phase, &busy);
    assert!(matches!(action2, MonitorAction::Continue));
    assert!(matches!(phase2, MonitorPhase::Polling));
}

#[test]
fn a_listener_joining_during_the_wait_aborts() {
    let (phase, _) = monitor_tick(MonitorPhase::Polling, &idle_obs());
    let mut joined = idle_obs();
    joined.alone = false;
    let (phase2, action2) = monitor_tick(phase, &joined);
    assert!(matches!(action2, MonitorAction::Continue));
    assert!(matches!(phase2, MonitorPhase::Polling));
}

#[test]
fn disabling_auto_disconnect_skips_the_tick() {
    let mut disabled = idle_obs();
    disabled.auto_disconnect_enabled = false;
    let (phase, action) = monitor_tick(MonitorPhase::Polling, &disabled);
    assert!(matches!(action, MonitorAction::Continue));
    assert!(matches!(phase, MonitorPhase::Polling));
    // Disabled during a running wait: abandoned, back to polling.
    let (phase2, action2) = monitor_tick(MonitorPhase::Waiting, &disabled);
    assert!(matches!(action2, MonitorAction::Continue));
    assert!(matches!(phase2, MonitorPhase::Polling));
}

#[test]
fn a_vanished_session_stops_the_monitor_silently() {
    let mut gone = idle_obs();
    gone.session_exists = false;
    let (phase, action) = monitor_tick(MonitorPhase::Waiting, &gone);
    assert!(matches!(action, MonitorAction::Stop));
    assert!(matches!(phase, MonitorPhase::Finished));
}

#[test]
fn an_unreadable_config_stops_the_monitor_silently() {
    let mut unreadable = idle_obs();
    unreadable.config_readable = false;
    let (phase, action) = monitor_tick(MonitorPhase::Polling, &unreadable);
    assert!(matches!(action, MonitorAction::Stop));
    assert!(matches!(phase, MonitorPhase::Finished));
}

#[test]
fn a_nonempty_queue_is_not_idle() {
    let mut queued = idle_obs();
    queued.queue_len = 2;
    let (phase, action) = monitor_tick(MonitorPhase::Polling, &queued);
    assert!(matches!(action, MonitorAction::Continue));
    assert!(matches!(phase, MonitorPhase::Polling));
}
