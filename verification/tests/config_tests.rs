use beatbot::config::{ConfigStore, GuildConfig};
use beatbot::models::{next_position, PlaylistTrack};

#[test]
fn first_access_creates_the_default_record() {
    let mut store = ConfigStore::new();
    let c = store.get_guild_config(10, "t0");
    assert_eq!(c.guild_id, 10);
    assert_eq!(c.dj_role_id, None);
    assert_eq!(c.volume, 100);
    assert!(c.auto_disconnect);
    assert_eq!(c.auto_disconnect_time, 300);
    assert!(c.announce_songs);
    assert_eq!(c.announce_channel_id, None);
    assert_eq!(c.max_queue_length, 100);
    assert!(c.allow_filters);
    assert!(c.allow_explicit);
    assert_eq!(c.created_at, "t0");
    assert_eq!(c.updated_at, "t0");
}

#[test]
fn a_second_read_returns_the_stored_record() {
    let mut store = ConfigStore::new();
    store.get_guild_config(10, "t0");
    store.update_volume(10, 55, "t1");
    let again = store.get_guild_config(10, "t9");
    assert_eq!(again.volume, 55);
    assert_eq!(again.created_at, "t0");
    assert_eq!(again.updated_at, "t1");
}

#[test]
fn updates_change_one_field_and_the_stamp() {
    let mut store = ConfigStore::new();
    store.get_guild_config(10, "t0");
    store.update_dj_role(10, Some(777), "t1");
    store.update_max_queue_length(10, 250, "t2");
    store.update_filters_setting(10, false, "t3");
    store.update_announce_settings(10, false, Some(888), "t4");
    let c = store.get_guild_config(10, "t9");
    assert_eq!(c.dj_role_id, Some(777));
    assert_eq!(c.max_queue_length, 250);
    assert!(!c.allow_filters);
    assert!(!c.announce_songs);
    assert_eq!(c.announce_channel_id, Some(888));
    assert_eq!(c.volume, 100);
    assert_eq!(c.updated_at, "t4");
}

#[test]
fn auto_disconnect_update_keeps_the_time_when_none_given() {
    let mut store = ConfigStore::new();
    store.get_guild_config(10, "t0");
    store.update_auto_disconnect(10, true, Some(60), "t1");
    let c = store.get_guild_config(10, "t2");
    assert!(c.auto_disconnect);
    assert_eq!(c.auto_disconnect_time, 60);
    store.update_auto_disconnect(10, false, None, "t3");
    let c2 = store.get_guild_config(10, "t4");
    assert!(!c2.auto_disconnect);
    assert_eq!(c2.auto_disconnect_time, 60);
}

#[test]
fn updating_an_absent_guild_changes_nothing() {
    let mut store = ConfigStore::new();
    store.update_volume(10, 55, "t1");
    let c = store.get_guild_config(10, "t2");
    assert_eq!(c.volume, 100);
    assert_eq!(c.created_at, "t2");
}

#[test]
fn reset_recreates_the_defaults() {
    let mut store = ConfigStore::new();
    store.get_guild_config(10, "t0");
    store.update_volume(10, 33, "t1");
    store.update_dj_role(10, Some(4), "t2");
    store.reset_guild_config(10, "t3");
    let c = store.get_guild_config(10, "t9");
    assert_eq!(c.volume, 100);
    assert_eq!(c.dj_role_id, None);
    assert_eq!(c.created_at, "t3");
}

#[test]
fn guilds_have_independent_records() {
    let mut store = ConfigStore::new();
    store.get_guild_config(1, "t0");
    store.get_guild_config(2, "t0");
    store.update_volume(1, 20, "t1");
    assert_eq!(store.get_guild_config(1, "t2").volume, 20);
    assert_eq!(store.get_guild_config(2, "t2").volume, 100);
}

#[test]
fn the_default_record_matches_the_documented_defaults() {
    let c = GuildConfig::default();
    assert_eq!(c.guild_id, 0);
    assert_eq!(c.volume, 100);
    assert!(c.auto_disconnect);
    assert_eq!(c.auto_disconnect_time, 300);
    assert_eq!(c.max_queue_length, 100);
    assert_eq!(c.created_at, "");
    assert_eq!(c.updated_at, "");
}

#[test]
fn playlist_positions_count_from_the_greatest() {
    let mk = |position: i32| PlaylistTrack {
        id: 1,
        playlist_id: 2,
        title: "t".to_string(),
        author: "a".to_string(),
        uri: "u".to_string(),
        position,
        added_by: 3,
        added_at: "t0".to_string(),
    };
    assert_eq!(next_position(&Vec::new()), 0);
    assert_eq!(next_position(&vec![mk(0), mk(4), mk(2)]), 5);
}
