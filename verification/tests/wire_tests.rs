use beatbot::bridge::{ClientRegistry, PlayerDirective, apply_control};
use beatbot::session::SessionRegistry;
use beatbot::strutil::parse_u64_decimal;
use beatbot::wire::{WsError, WsReply, WsRequest, parse_request};

fn active_registry(guild: u64) -> SessionRegistry {
    let mut reg = SessionRegistry::new();
    reg.request_join(guild, 42, None, Some(7), 100).unwrap();
    assert!(reg.complete_join(guild, 100));
    reg
}

#[test]
fn out_of_range_volume_is_rejected_without_a_directive() {
    let r = parse_request(r#"{"type":"volume","guild_id":"123","volume":1500}"#);
    assert!(matches!(r, Err(WsError::VolumeOutOfRange)));
    // The request never classifies, so nothing can reach the audio node.
}

#[test]
fn valid_volume_reaches_an_active_session() {
    let req = parse_request(r#"{"type":"volume","guild_id":"1","volume":500}"#).unwrap();
    assert!(matches!(req, WsRequest::Volume { guild_id: 1, volume: 500 }));
    let reg = active_registry(1);
    let o = apply_control(&reg, &req, false, 0);
    assert!(matches!(o.directive, Some(PlayerDirective::SetVolume(500))));
    assert!(matches!(o.reply, WsReply::VolumeResponse { guild_id: 1, volume: 500 }));
}

#[test]
fn controls_without_a_session_answer_but_move_nothing() {
    let req = parse_request(r#"{"type":"skip","guild_id":"1"}"#).unwrap();
    let reg = SessionRegistry::new();
    let o = apply_control(&reg, &req, false, 0);
    assert!(o.directive.is_none());
    assert!(matches!(o.reply, WsReply::SkipResponse { guild_id: 1 }));
}

#[test]
fn pause_and_resume_set_and_clear_the_pause() {
    let reg = active_registry(1);
    let pause = parse_request(r#"{"type":"pause","guild_id":"1"}"#).unwrap();
    let resume = parse_request(r#"{"type":"resume","guild_id":"1"}"#).unwrap();
    assert!(matches!(
        apply_control(&reg, &pause, false, 0).directive,
        Some(PlayerDirective::SetPause(true))
    ));
    assert!(matches!(
        apply_control(&reg, &resume, false, 0).directive,
        Some(PlayerDirective::SetPause(false))
    ));
}

#[test]
fn stop_and_seek_produce_their_directives() {
    let reg = active_registry(1);
    let stop = parse_request(r#"{"type":"stop","guild_id":"1"}"#).unwrap();
    assert!(matches!(apply_control(&reg, &stop, false, 0).directive, Some(PlayerDirective::StopNow)));
    let seek = parse_request(r#"{"type":"seek","guild_id":"1","position":45000}"#).unwrap();
    let o = apply_control(&reg, &seek, false, 0);
    assert!(matches!(o.directive, Some(PlayerDirective::SeekTo(45000))));
    assert!(matches!(o.reply, WsReply::SeekResponse { guild_id: 1, position_ms: 45000 }));
}

#[test]
fn ping_pongs_and_status_reports() {
    let reg = SessionRegistry::new();
    let ping = parse_request(r#"{"type":"ping"}"#).unwrap();
    assert!(matches!(apply_control(&reg, &ping, false, 0).reply, WsReply::Pong));
    let status = parse_request(r#"{"type":"status"}"#).unwrap();
    assert!(matches!(
        apply_control(&reg, &status, false, 0).reply,
        WsReply::Status { lavalink_connected: true }
    ));
}

#[test]
fn queue_request_snapshots_the_session() {
    let mut reg = active_registry(1);
    reg.queue_append(
        1,
        vec![beatbot::queue::QueuedTrack {
            track: beatbot::queue::TrackMeta {
                title: "first".to_string(),
                author: "a".to_string(),
                uri: Some("https://example.invalid/first".to_string()),
                artwork_url: Some("https://example.invalid/first.png".to_string()),
                length_ms: 1000,
            },
            requester_id: 3,
        }],
    )
    .unwrap();
    reg.note_now_playing(
        1,
        Some(beatbot::queue::TrackMeta {
            title: "playing".to_string(),
            author: "b".to_string(),
            uri: None,
            artwork_url: None,
            length_ms: 2000,
        }),
    );
    let req = parse_request(r#"{"type":"queue","guild_id":"1"}"#).unwrap();
    let o = apply_control(&reg, &req, false, 0);
    match o.reply {
        WsReply::QueueResponse { guild_id, current_track, tracks } => {
            assert_eq!(guild_id, 1);
            let current = current_track.expect("a track was reported playing");
            assert_eq!(current.title, "playing");
            assert_eq!(current.author, "b");
            assert_eq!(current.uri, None);
            assert_eq!(current.length_ms, 2000);
            assert_eq!(tracks.len(), 1);
            assert_eq!(tracks[0].title, "first");
            assert_eq!(tracks[0].author, "a");
            assert_eq!(tracks[0].uri.as_deref(), Some("https://example.invalid/first"));
            assert_eq!(tracks[0].artwork_url.as_deref(), Some("https://example.invalid/first.png"));
            assert_eq!(tracks[0].length_ms, 1000);
        },
        _ => panic!("a queue request answers with the queue"),
    }
}

#[test]
fn player_info_reports_the_node_state() {
    let reg = active_registry(1);
    let req = parse_request(r#"{"type":"player_info","guild_id":"1"}"#).unwrap();
    let o = apply_control(&reg, &req, true, 30500);
    assert!(matches!(
        o.reply,
        WsReply::PlayerInfoResponse { guild_id: 1, connected: true, paused: true, position_ms: 30500 }
    ));
    let absent = SessionRegistry::new();
    let o2 = apply_control(&absent, &req, true, 0);
    assert!(matches!(o2.reply, WsReply::PlayerInfoResponse { connected: false, .. }));
}

#[test]
fn malformed_frames_get_their_errors() {
    assert!(matches!(parse_request("not json at all"), Err(WsError::InvalidJson)));
    assert!(matches!(parse_request(r#"{"guild_id":"1"}"#), Err(WsError::MissingType)));
    assert!(matches!(parse_request(r#"{"type":"dance"}"#), Err(WsError::UnknownType)));
    assert!(matches!(parse_request(r#"{"type":"skip"}"#), Err(WsError::MissingGuildId)));
    assert!(matches!(
        parse_request(r#"{"type":"skip","guild_id":"abc"}"#),
        Err(WsError::InvalidGuildId)
    ));
    assert!(matches!(
        parse_request(r#"{"type":"play","guild_id":"1"}"#),
        Err(WsError::MissingTrackId)
    ));
    assert!(matches!(
        parse_request(r#"{"type":"volume","guild_id":"1"}"#),
        Err(WsError::MissingVolume)
    ));
    assert!(matches!(
        parse_request(r#"{"type":"volume","guild_id":"1","volume":"loud"}"#),
        Err(WsError::MissingVolume)
    ));
    assert!(matches!(
        parse_request(r#"{"type":"seek","guild_id":"1"}"#),
        Err(WsError::MissingPosition)
    ));
    assert!(matches!(
        parse_request(r#"{"type":"seek","guild_id":"1","position":-5}"#),
        Err(WsError::NegativePosition)
    ));
}

#[test]
fn boundary_volumes_parse_exactly() {
    assert!(matches!(
        parse_request(r#"{"type":"volume","guild_id":"1","volume":0}"#),
        Ok(WsRequest::Volume { volume: 0, .. })
    ));
    assert!(matches!(
        parse_request(r#"{"type":"volume","guild_id":"1","volume":1000}"#),
        Ok(WsRequest::Volume { volume: 1000, .. })
    ));
    assert!(matches!(
        parse_request(r#"{"type":"volume","guild_id":"1","volume":1001}"#),
        Err(WsError::VolumeOutOfRange)
    ));
    assert!(matches!(
        parse_request(r#"{"type":"volume","guild_id":"1","volume":-1}"#),
        Err(WsError::VolumeOutOfRange)
    ));
}

#[test]
fn play_requests_carry_their_track() {
    let req = parse_request(r#"{"type":"play","guild_id":"9","track_id":"https://x/y"}"#).unwrap();
    match req {
        WsRequest::Play { guild_id, track_id } => {
            assert_eq!(guild_id, 9);
            assert_eq!(track_id, "https://x/y");
        },
        _ => panic!("a play frame classifies as a play request"),
    }
}

#[test]
fn subscriptions_are_last_wins_per_client() {
    let mut clients = ClientRegistry::new();
    clients.subscribe(100, 1);
    clients.subscribe(200, 1);
    clients.subscribe(100, 2);
    let to_one = clients.recipients(1);
    assert_eq!(to_one, vec![200]);
    let to_two = clients.recipients(2);
    assert_eq!(to_two, vec![100]);
}

#[test]
fn a_closed_client_receives_nothing_further() {
    let mut clients = ClientRegistry::new();
    clients.subscribe(100, 1);
    clients.subscribe(200, 1);
    clients.remove_client(100);
    assert_eq!(clients.recipients(1), vec![200]);
    clients.remove_client(100);
    assert_eq!(clients.recipients(1), vec![200]);
}

#[test]
fn error_messages_name_their_cause() {
    assert_eq!(WsError::VolumeOutOfRange.message(), "Volume must be between 0 and 1000");
    assert_eq!(WsError::InvalidJson.message(), "Invalid JSON format");
    assert_eq!(WsError::MissingType.message(), "Missing 'type' field");
    assert_eq!(WsError::NegativePosition.message(), "Position must be a positive value");
}

#[test]
fn decimal_ids_parse_and_junk_does_not() {
    assert_eq!(parse_u64_decimal("0"), Some(0));
    assert_eq!(parse_u64_decimal("1459592284202078319"), Some(1459592284202078319));
    assert_eq!(parse_u64_decimal("18446744073709551615"), Some(u64::MAX));
    assert_eq!(parse_u64_decimal("18446744073709551616"), None);
    assert_eq!(parse_u64_decimal(""), None);
    assert_eq!(parse_u64_decimal("+5"), None);
    assert_eq!(parse_u64_decimal("12a"), None);
    assert_eq!(parse_u64_decimal("-3"), None);
}
