use beatbot::errors::BotError;
use beatbot::play::{
    LoadResult, PlayOutcome, Query, autocomplete_choices, autocomplete_wanted, resolve_query,
};
use beatbot::queue::TrackMeta;
use beatbot::session::SessionRegistry;

fn meta(title: &str) -> TrackMeta {
    TrackMeta {
        title: title.to_string(),
        author: "Artist".to_string(),
        uri: Some("https://example.invalid/t".to_string()),
        artwork_url: None,
        length_ms: 240_000,
    }
}

fn metas(n: usize) -> Vec<TrackMeta> {
    (0..n).map(|i| meta(&format!("track{}", i))).collect()
}

fn registry_with_active(guild: u64, max_queue: usize) -> SessionRegistry {
    let mut reg = SessionRegistry::new();
    reg.request_join(guild, 42, None, Some(7), max_queue).unwrap();
    assert!(reg.complete_join(guild, 100));
    reg
}

#[test]
fn url_terms_pass_through_verbatim() {
    match resolve_query("https://example.invalid/song".to_string()) {
        Query::Direct(t) => assert_eq!(t, "https://example.invalid/song"),
        Query::ProviderSearch(_) => panic!("a URL must not become a search"),
    }
}

#[test]
fn plain_terms_become_provider_searches() {
    match resolve_query("never gonna give".to_string()) {
        Query::ProviderSearch(t) => assert_eq!(t, "never gonna give"),
        Query::Direct(_) => panic!("a plain term must become a search"),
    }
}

#[test]
fn playlist_into_empty_queue_starts_playback_once() {
    let mut reg = registry_with_active(1, 100);
    let load = LoadResult::Playlist("Mix".to_string(), metas(10));
    let outcome = reg.admit_play(1, load, 9, false).unwrap();
    match outcome {
        PlayOutcome::Queued { admitted, rejected, playlist_name, start_playback } => {
            assert_eq!(admitted, 10);
            assert_eq!(rejected, 0);
            assert_eq!(playlist_name.as_deref(), Some("Mix"));
            assert!(start_playback);
        },
        PlayOutcome::NoMatches => panic!("a playlist is not a miss"),
    }
    assert_eq!(reg.get(1).unwrap().queue.count(), 10);
}

#[test]
fn no_start_directive_while_a_track_plays() {
    let mut reg = registry_with_active(1, 100);
    let outcome = reg.admit_play(1, LoadResult::Single(meta("s")), 9, true).unwrap();
    match outcome {
        PlayOutcome::Queued { admitted, start_playback, .. } => {
            assert_eq!(admitted, 1);
            assert!(!start_playback);
        },
        PlayOutcome::NoMatches => panic!("a single track is not a miss"),
    }
}

#[test]
fn search_results_admit_only_the_first() {
    let mut reg = registry_with_active(1, 100);
    let outcome = reg.admit_play(1, LoadResult::Search(metas(5)), 9, false).unwrap();
    match outcome {
        PlayOutcome::Queued { admitted, playlist_name, .. } => {
            assert_eq!(admitted, 1);
            assert!(playlist_name.is_none());
        },
        PlayOutcome::NoMatches => panic!("search hits are not a miss"),
    }
    assert_eq!(reg.get(1).unwrap().queue.count(), 1);
    assert_eq!(reg.get(1).unwrap().queue.peek_at(0).unwrap().track.title, "track0");
    assert_eq!(reg.get(1).unwrap().queue.peek_at(0).unwrap().requester_id, 9);
}

#[test]
fn empty_loads_are_no_matches() {
    let mut reg = registry_with_active(1, 100);
    assert!(matches!(reg.admit_play(1, LoadResult::Empty, 9, false), Ok(PlayOutcome::NoMatches)));
    assert!(matches!(
        reg.admit_play(1, LoadResult::Search(Vec::new()), 9, false),
        Ok(PlayOutcome::NoMatches)
    ));
    assert_eq!(reg.get(1).unwrap().queue.count(), 0);
}

#[test]
fn full_queue_rejects_the_whole_add() {
    let mut reg = registry_with_active(1, 2);
    reg.admit_play(1, LoadResult::Playlist("Mix".to_string(), metas(2)), 9, true).unwrap();
    let r = reg.admit_play(1, LoadResult::Single(meta("late")), 9, true);
    assert!(matches!(r, Err(BotError::QueueCapacityExceeded(2))));
    assert_eq!(reg.get(1).unwrap().queue.count(), 2);
}

#[test]
fn oversized_playlist_is_trimmed_and_reported() {
    let mut reg = registry_with_active(1, 5);
    let outcome = reg.admit_play(1, LoadResult::Playlist("Big".to_string(), metas(8)), 9, false)
        .unwrap();
    match outcome {
        PlayOutcome::Queued { admitted, rejected, .. } => {
            assert_eq!(admitted, 5);
            assert_eq!(rejected, 3);
        },
        PlayOutcome::NoMatches => panic!("a playlist is not a miss"),
    }
    assert_eq!(reg.get(1).unwrap().queue.count(), 5);
}

#[test]
fn play_without_session_is_no_active_session() {
    let mut reg = SessionRegistry::new();
    let r = reg.admit_play(1, LoadResult::Single(meta("s")), 9, false);
    assert!(matches!(r, Err(BotError::NoActiveSession)));
}

#[test]
fn suggestions_need_two_characters() {
    assert!(!autocomplete_wanted(""));
    assert!(!autocomplete_wanted("a"));
    assert!(autocomplete_wanted("ab"));
}

#[test]
fn suggestions_follow_the_load_result() {
    let single = LoadResult::Single(meta("One"));
    let r = autocomplete_choices(&single, "one");
    assert_eq!(r.len(), 1);
    assert_eq!(r[0].label, "Artist - One");
    assert_eq!(r[0].value, "https://example.invalid/t");

    let search = LoadResult::Search(metas(30));
    let r2 = autocomplete_choices(&search, "tr");
    assert_eq!(r2.len(), 25);
    assert_eq!(r2[0].label, "Artist - track0");

    let playlist = LoadResult::Playlist("Mix".to_string(), metas(3));
    let r3 = autocomplete_choices(&playlist, "mix query");
    assert_eq!(r3.len(), 1);
    assert_eq!(r3[0].label, "Mix");
    assert_eq!(r3[0].value, "mix query");

    assert!(autocomplete_choices(&LoadResult::Empty, "x").is_empty());
}

#[test]
fn fresh_defaults_join_and_first_play() {
    // A guild on defaults: volume 100, queue bound 100, auto-disconnect 300 s.
    let mut store = beatbot::config::ConfigStore::new();
    let config = store.get_guild_config(1, "2024-01-01T00:00:00Z");
    assert_eq!(config.volume, 100);
    assert_eq!(config.max_queue_length, 100);
    assert!(config.auto_disconnect);
    assert_eq!(config.auto_disconnect_time, 300);

    // The user sits in voice channel 7 and asks for a direct URL.
    let mut reg = SessionRegistry::new();
    let joined = reg.request_join(1, 42, None, Some(7), config.max_queue_length as usize).unwrap();
    assert!(matches!(joined, beatbot::session::JoinOutcome::Connect { voice_channel: 7 }));
    assert!(reg.complete_join(1, config.volume as u16));
    let s = reg.get(1).unwrap();
    assert!(matches!(s.state, beatbot::session::SessionState::Active));
    assert_eq!(s.volume, 100);

    let query = resolve_query("https://example.invalid/one".to_string());
    assert!(matches!(query, Query::Direct(_)));
    // The node reports nothing playing before the append.
    let outcome = reg.admit_play(1, LoadResult::Single(meta("one")), 5, false).unwrap();
    match outcome {
        PlayOutcome::Queued { admitted, start_playback, .. } => {
            assert_eq!(admitted, 1);
            assert!(start_playback);
        },
        PlayOutcome::NoMatches => panic!("the track loaded"),
    }
    assert_eq!(reg.get(1).unwrap().queue.count(), 1);
}
