use beatbot::announce::{AnnouncementBuilder, EmbedBuilder, announce_target, COLOR_ERROR,
    COLOR_INFO, COLOR_SUCCESS};
use beatbot::bridge::PlayerDirective;
use beatbot::commands::{config_overview, now_playing_gate, queue_overview};
use beatbot::config::GuildConfig;
use beatbot::errors::BotError;
use beatbot::filters::{FilterGate, FilterPreset, filter_gate};
use beatbot::queue::{Queue, QueuedTrack, TrackMeta};
use beatbot::strutil::{format_duration, i64_to_dec, u64_to_dec};

fn meta(title: &str) -> TrackMeta {
    TrackMeta {
        title: title.to_string(),
        author: "Artist".to_string(),
        uri: Some("https://example.invalid/t".to_string()),
        artwork_url: Some("https://example.invalid/art.png".to_string()),
        length_ms: 65_000,
    }
}

#[test]
fn durations_render_as_minutes_and_hours() {
    assert_eq!(format_duration(0), "0:00");
    assert_eq!(format_duration(999), "0:00");
    assert_eq!(format_duration(65_000), "1:05");
    assert_eq!(format_duration(600_000), "10:00");
    assert_eq!(format_duration(3_600_000), "1:00:00");
    assert_eq!(format_duration(3_725_000), "1:02:05");
    assert_eq!(format_duration(36_000_000 + 754_000), "10:12:34");
}

#[test]
fn decimals_render_without_padding() {
    assert_eq!(u64_to_dec(0), "0");
    assert_eq!(u64_to_dec(42), "42");
    assert_eq!(u64_to_dec(18446744073709551615), "18446744073709551615");
}

#[test]
fn now_playing_embeds_carry_link_duration_and_requester() {
    let e = AnnouncementBuilder::now_playing(&meta("Song"), 42);
    assert_eq!(e.title, "Now Playing");
    assert_eq!(e.description, "**[Artist - Song](https://example.invalid/t)**");
    assert_eq!(e.fields.len(), 2);
    assert_eq!(e.fields[0].name, "Duration");
    assert_eq!(e.fields[0].value, "1:05");
    assert_eq!(e.fields[1].name, "Requested by");
    assert_eq!(e.fields[1].value, "<@42>");
    assert_eq!(e.color, COLOR_INFO);
    assert_eq!(e.thumbnail.as_deref(), Some("https://example.invalid/art.png"));
    assert!(e.has_timestamp);
}

#[test]
fn live_streams_show_live_instead_of_a_duration() {
    let mut t = meta("Stream");
    t.length_ms = 0;
    t.uri = None;
    let e = AnnouncementBuilder::now_playing(&t, 1);
    assert_eq!(e.fields[0].value, "LIVE");
    assert_eq!(e.description, "**[Artist - Stream](#)**");
}

#[test]
fn added_to_queue_embeds_number_the_position() {
    let e = AnnouncementBuilder::added_to_queue(&meta("Song"), 42, 3);
    assert_eq!(e.title, "Added to Queue");
    assert_eq!(e.fields[1].name, "Position");
    assert_eq!(e.fields[1].value, "#3");
}

#[test]
fn track_ended_embeds_name_the_track() {
    let e = AnnouncementBuilder::track_ended(&meta("Song"));
    assert_eq!(e.title, "Track Ended");
    assert_eq!(e.description, "**Artist - Song**");
    assert!(e.fields.is_empty());
}

#[test]
fn playlist_added_embeds_count_the_tracks() {
    let e = AnnouncementBuilder::playlist_added("My Mix", 10, 42);
    assert_eq!(e.title, "Playlist Added");
    assert_eq!(e.description, "**My Mix**");
    assert_eq!(e.fields[0].name, "Tracks Added");
    assert_eq!(e.fields[0].value, "10");
}

#[test]
fn reply_embeds_use_their_colors() {
    let e = EmbedBuilder::error("Oops".to_string(), "It broke".to_string());
    assert_eq!(e.title, "Oops");
    assert_eq!(e.color, COLOR_ERROR);
    let s = EmbedBuilder::success("Done".to_string(), "All good".to_string());
    assert_eq!(s.color, COLOR_SUCCESS);
}

#[test]
fn announcements_go_to_the_configured_channel_or_fallback() {
    let mut c = GuildConfig::default();
    assert_eq!(announce_target(&c, 42), Some(42));
    c.announce_channel_id = Some(900);
    assert_eq!(announce_target(&c, 42), Some(900));
    c.announce_songs = false;
    assert_eq!(announce_target(&c, 42), None);
}

#[test]
fn the_queue_overview_numbers_the_tracks() {
    let mut q = Queue::new(100);
    for name in ["one", "two"] {
        q.append(vec![QueuedTrack { track: meta(name), requester_id: 1 }]);
    }
    let now = meta("Current");
    let s = queue_overview(Some(&now), &q);
    assert_eq!(
        s,
        "**Now Playing:** Artist - Current\n\n**On Queue**:\n1. one\n2. two\n"
    );
}

#[test]
fn the_queue_overview_caps_at_nine_lines() {
    let mut q = Queue::new(100);
    for i in 0..12 {
        q.append(vec![QueuedTrack { track: meta(&format!("t{}", i)), requester_id: 1 }]);
    }
    let s = queue_overview(None, &q);
    assert!(s.starts_with("No track is currently playing.\n**On Queue**:\n1. t0\n"));
    assert!(s.contains("9. t8\n"));
    assert!(!s.contains("10. t9"));
}

#[test]
fn playback_commands_move_nothing_when_idle() {
    let now = meta("Current");
    assert_eq!(now_playing_gate(Some(&now), PlayerDirective::Skip), Some(PlayerDirective::Skip));
    assert_eq!(
        now_playing_gate(Some(&now), PlayerDirective::StopNow),
        Some(PlayerDirective::StopNow)
    );
    assert_eq!(now_playing_gate(None, PlayerDirective::Skip), None);
    assert_eq!(now_playing_gate(None, PlayerDirective::SeekTo(5000)), None);
}

#[test]
fn an_empty_queue_says_so() {
    let q = Queue::new(100);
    let s = queue_overview(None, &q);
    assert_eq!(s, "No track is currently playing.\n**On Queue**:\nQueue is empty");
}

#[test]
fn signed_decimals_render_with_their_sign() {
    assert_eq!(i64_to_dec(0), "0");
    assert_eq!(i64_to_dec(314), "314");
    assert_eq!(i64_to_dec(-314), "-314");
    assert_eq!(i64_to_dec(i64::MIN), "-9223372036854775808");
    assert_eq!(i64_to_dec(i64::MAX), "9223372036854775807");
}

#[test]
fn the_config_overview_shows_every_setting() {
    let mut c = GuildConfig::default();
    c.dj_role_id = Some(777);
    c.announce_channel_id = None;
    let e = config_overview(&c);
    assert_eq!(e.title, "Guild Configuration");
    assert_eq!(e.fields.len(), 8);
    assert_eq!(e.fields[0].value, "<@&777>");
    assert_eq!(e.fields[1].value, "100%");
    assert_eq!(e.fields[2].value, "100");
    assert_eq!(e.fields[3].value, "Enabled (300s)");
    assert_eq!(e.fields[4].value, "true");
    assert_eq!(e.fields[5].value, "Current channel");
    assert_eq!(e.fields[6].value, "true");
    assert_eq!(e.fields[7].value, "true");
    c.dj_role_id = None;
    c.auto_disconnect = false;
    c.announce_channel_id = Some(555);
    let e2 = config_overview(&c);
    assert_eq!(e2.fields[0].value, "Not set (Everyone can use music commands)");
    assert_eq!(e2.fields[3].value, "Disabled");
    assert_eq!(e2.fields[5].value, "<#555>");
}

#[test]
fn error_messages_are_user_facing() {
    assert_eq!(BotError::NotInVoice.message(), "Not in a voice channel");
    assert_eq!(BotError::NoActiveSession.message(), "No active playback session");
    assert_eq!(BotError::QueueCapacityExceeded(100).message(), "Queue limit reached");
    assert_eq!(BotError::IndexOutOfRange.message(), "Index out of range");
    assert_eq!(BotError::AudioNodeError.message(), "Audio node request failed");
    assert_eq!(BotError::VoiceConnectorError.message(), "Voice connection failed");
    assert_eq!(BotError::ConfigStoreError.message(), "Configuration store failed");
}

#[test]
fn presets_have_names_slugs_and_an_inverse() {
    assert_eq!(FilterPreset::all_presets().len(), 13);
    for p in FilterPreset::all_presets() {
        assert!(!p.name().is_empty());
        assert!(!p.description().is_empty());
        assert!(!p.emoji().is_empty());
        assert_eq!(FilterPreset::from_slug(p.slug()), Some(p));
    }
    assert_eq!(FilterPreset::from_slug("bass_boost"), Some(FilterPreset::Bassboost));
    assert_eq!(FilterPreset::from_slug("8d_audio"), Some(FilterPreset::EightD));
    assert_eq!(FilterPreset::from_slug("megabass"), None);
    assert_eq!(FilterPreset::Bassboost.name(), "Bass Boost");
    assert_eq!(FilterPreset::Clear.name(), "Clear (No Filters)");
}

#[test]
fn the_filter_gate_checks_in_order() {
    assert!(matches!(filter_gate(false, true, true), FilterGate::PermissionDenied));
    assert!(matches!(filter_gate(true, false, true), FilterGate::NotInVoice));
    assert!(matches!(filter_gate(true, true, false), FilterGate::FiltersDisabled));
    assert!(matches!(filter_gate(true, true, true), FilterGate::Allowed));
}
