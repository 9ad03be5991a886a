use beatbot::config::GuildConfig;
use beatbot::events::{
    BroadcastPayload, TrackEndReason, websocket_closed, track_end, track_exception,
    track_start,
};
use beatbot::permissions::{JoinGate, check_dj_or_admin, check_in_voice, check_user_in_voice,
    join_gate};
use beatbot::queue::TrackMeta;

fn meta() -> TrackMeta {
    TrackMeta {
        title: "Song".to_string(),
        author: "Artist".to_string(),
        uri: Some("https://example.invalid/t".to_string()),
        artwork_url: None,
        length_ms: 65_000,
    }
}

#[test]
fn track_start_broadcasts_even_when_announcements_are_off() {
    let mut config = GuildConfig::default();
    config.announce_songs = false;
    let o = track_start(5, &meta(), Some(42), &config, 42);
    assert!(o.announcement.is_none());
    match o.broadcast {
        BroadcastPayload::TrackUpdate { title, requester_id, length_ms, .. } => {
            assert_eq!(title, "Song");
            assert_eq!(requester_id, "42");
            assert_eq!(length_ms, 65_000);
        },
        _ => panic!("a track start broadcasts a track update"),
    }
}

#[test]
fn track_start_announces_to_the_configured_channel() {
    let mut config = GuildConfig::default();
    config.announce_channel_id = Some(900);
    let o = track_start(5, &meta(), Some(42), &config, 42);
    let a = o.announcement.expect("announcements are on by default");
    assert_eq!(a.channel_id, 900);
    assert_eq!(a.embed.title, "Now Playing");
    assert_eq!(a.embed.fields[1].value, "<@42>");
}

#[test]
fn track_start_falls_back_to_the_session_channel() {
    let config = GuildConfig::default();
    let o = track_start(5, &meta(), None, &config, 42);
    let a = o.announcement.unwrap();
    assert_eq!(a.channel_id, 42);
    assert_eq!(a.embed.fields[1].value, "<@0>");
    match o.broadcast {
        BroadcastPayload::TrackUpdate { requester_id, .. } => assert_eq!(requester_id, ""),
        _ => panic!("a track start broadcasts a track update"),
    }
}

#[test]
fn natural_track_ends_are_announced() {
    let config = GuildConfig::default();
    let o = track_end(5, &meta(), TrackEndReason::Finished, &config, 42);
    let a = o.announcement.unwrap();
    assert_eq!(a.embed.title, "Track Ended");
    match o.broadcast {
        BroadcastPayload::TrackEnd { reason, .. } => {
            assert!(matches!(reason, TrackEndReason::Finished))
        },
        _ => panic!("a track end broadcasts a track end"),
    }
}

#[test]
fn replaced_and_stopped_ends_broadcast_but_stay_silent() {
    let config = GuildConfig::default();
    for reason in [TrackEndReason::Replaced, TrackEndReason::Stopped] {
        let o = track_end(5, &meta(), reason, &config, 42);
        assert!(o.announcement.is_none());
        assert!(matches!(o.broadcast, BroadcastPayload::TrackEnd { .. }));
    }
}

#[test]
fn ends_stay_silent_when_announcements_are_off() {
    let mut config = GuildConfig::default();
    config.announce_songs = false;
    let o = track_end(5, &meta(), TrackEndReason::Finished, &config, 42);
    assert!(o.announcement.is_none());
}

#[test]
fn exceptions_are_always_surfaced() {
    let o = track_exception(5, &meta(), "decoder died", "FAULT", 42);
    let a = o.announcement.expect("failures are surfaced whatever the settings");
    assert_eq!(a.channel_id, 42);
    assert_eq!(a.embed.title, "Playback Error");
    assert_eq!(a.embed.description, "Failed to play **Artist - Song** - decoder died");
    match o.broadcast {
        BroadcastPayload::TrackException { error, severity, .. } => {
            assert_eq!(error, "decoder died");
            assert_eq!(severity, "FAULT");
        },
        _ => panic!("an exception broadcasts the error"),
    }
}

#[test]
fn connection_closes_broadcast_without_teardown_or_announcement() {
    let o = websocket_closed(5, 4006, "session invalid", true);
    assert!(o.announcement.is_none());
    match o.broadcast {
        BroadcastPayload::VoiceDisconnected { code, close_reason, by_remote } => {
            assert_eq!(code, 4006);
            assert_eq!(close_reason, "session invalid");
            assert!(by_remote);
        },
        _ => panic!("a close broadcasts a voice disconnect"),
    }
}

#[test]
fn dj_gate_admits_admins_everyone_without_a_role_and_holders() {
    assert!(check_dj_or_admin(true, Some(7), &vec![]));
    assert!(check_dj_or_admin(false, None, &vec![]));
    assert!(check_dj_or_admin(false, Some(7), &vec![3, 7, 9]));
    assert!(!check_dj_or_admin(false, Some(7), &vec![3, 9]));
}

#[test]
fn voice_checks_follow_the_bot() {
    assert!(check_in_voice(Some(5), None));
    assert!(!check_in_voice(None, None));
    assert!(check_in_voice(Some(5), Some(5)));
    assert!(!check_in_voice(Some(5), Some(6)));
    assert!(!check_in_voice(None, Some(6)));
    assert!(check_user_in_voice(Some(5), Some(5)));
    assert!(!check_user_in_voice(None, None));
}

#[test]
fn the_join_gate_distinguishes_its_cases() {
    assert!(matches!(join_gate(None, None), JoinGate::CannotJoin));
    assert!(matches!(join_gate(Some(5), Some(5)), JoinGate::AlreadyConnected));
    assert!(matches!(join_gate(Some(5), Some(6)), JoinGate::Busy));
    assert!(matches!(join_gate(Some(5), None), JoinGate::Proceed(5)));
}
