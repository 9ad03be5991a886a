//! Chat announcements as data: the embed model and the builders that format
//! "now playing", "added to queue", "track ended" and "playlist added"
//! messages, plus the rule choosing which channel an announcement goes to.
//! Rendering an embed into the chat platform's own message type is the
//! embedding program's task.

use vstd::prelude::*;

use crate::config::GuildConfig;
use crate::queue::TrackMeta;
use crate::strutil::{format_duration, opt_str_view, spec_format_duration, spec_u64_dec, u64_to_dec};

verus! {

pub const COLOR_SUCCESS: u32 = 0x2ECC71;

pub const COLOR_ERROR: u32 = 0xE74C3C;

pub const COLOR_WARNING: u32 = 0xF39C12;

pub const COLOR_INFO: u32 = 0x3498DB;

/// One titled field of an embed.
#[derive(Debug)]
pub struct EmbedField {
    pub name: String,
    pub value: String,
    pub inline: bool,
}

/// A chat embed, reduced to the parts this library fills in.
#[derive(Debug)]
pub struct Embed {
    pub title: String,
    pub description: String,
    pub fields: Vec<EmbedField>,
    pub color: u32,
    pub thumbnail: Option<String>,
    pub has_timestamp: bool,
}

/// The `**[author - title](uri)**` link line of a track, with `#` standing in
/// for a missing locator.
pub open spec fn spec_track_link(author: Seq<char>, title: Seq<char>, uri: Option<Seq<char>>) -> Seq<
    char,
> {
    "**["@ + author + " - "@ + title + "]("@ + (match uri {
        Some(u) => u,
        None => "#"@,
    }) + ")**"@
}

/// The `**author - title**` bold name of a track.
pub open spec fn spec_track_name(author: Seq<char>, title: Seq<char>) -> Seq<char> {
    "**"@ + author + " - "@ + title + "**"@
}

/// A track's displayed duration: its length, or `LIVE` for a stream.
pub open spec fn spec_duration_text(length_ms: u64) -> Seq<char> {
    if length_ms > 0 {
        spec_format_duration(length_ms as nat)
    } else {
        "LIVE"@
    }
}

/// The chat mention of user `id`.
pub open spec fn spec_mention(id: u64) -> Seq<char> {
    "<@"@ + spec_u64_dec(id as nat) + ">"@
}

/// Builds the `**[author - title](uri)**` link line of `track`.
pub fn track_link(track: &TrackMeta) -> (r: String)
    ensures
        r@ =~= spec_track_link(track.author@, track.title@, opt_str_view(track.uri)),
{
    let mut s = "**[".to_owned();
    s.append(track.author.as_str());
    s.append(" - ");
    s.append(track.title.as_str());
    s.append("](");
    match &track.uri {
        Some(u) => s.append(u.as_str()),
        None => s.append("#"),
    }
    s.append(")**");
    s
}

/// Builds the `**author - title**` name of `track`.
pub fn track_name(track: &TrackMeta) -> (r: String)
    ensures
        r@ =~= spec_track_name(track.author@, track.title@),
{
    let mut s = "**".to_owned();
    s.append(track.author.as_str());
    s.append(" - ");
    s.append(track.title.as_str());
    s.append("**");
    s
}

/// Builds a track's displayed duration.
pub fn duration_text(length_ms: u64) -> (r: String)
    ensures
        r@ =~= spec_duration_text(length_ms),
{
    if length_ms > 0 {
        format_duration(length_ms)
    } else {
        "LIVE".to_owned()
    }
}

/// Builds the chat mention of user `id`.
pub fn mention(id: u64) -> (r: String)
    ensures
        r@ =~= spec_mention(id),
{
    let mut s = "<@".to_owned();
    s.append(u64_to_dec(id).as_str());
    s.append(">");
    s
}

/// What a "now playing" announcement contains: the track link, its duration
/// and requester as inline fields, the track's artwork, and a timestamp.
pub open spec fn is_now_playing_embed(e: Embed, track: TrackMeta, requester_id: u64) -> bool {
    &&& e.title@ == "Now Playing"@
    &&& e.description@ == spec_track_link(track.author@, track.title@, opt_str_view(track.uri))
    &&& e.fields@.len() == 2
    &&& e.fields@[0].name@ == "Duration"@
    &&& e.fields@[0].value@ == spec_duration_text(track.length_ms)
    &&& e.fields@[0].inline
    &&& e.fields@[1].name@ == "Requested by"@
    &&& e.fields@[1].value@ == spec_mention(requester_id)
    &&& e.fields@[1].inline
    &&& e.color == COLOR_INFO
    &&& opt_str_view(e.thumbnail) == opt_str_view(track.artwork_url)
    &&& e.has_timestamp
}

/// What an "added to queue" announcement contains: the track link, its
/// duration, queue position and requester, the artwork, and a timestamp.
pub open spec fn is_added_to_queue_embed(
    e: Embed,
    track: TrackMeta,
    requester_id: u64,
    position: u64,
) -> bool {
    &&& e.title@ == "Added to Queue"@
    &&& e.description@ == spec_track_link(track.author@, track.title@, opt_str_view(track.uri))
    &&& e.fields@.len() == 3
    &&& e.fields@[0].name@ == "Duration"@
    &&& e.fields@[0].value@ == spec_duration_text(track.length_ms)
    &&& e.fields@[0].inline
    &&& e.fields@[1].name@ == "Position"@
    &&& e.fields@[1].value@ == "#"@ + spec_u64_dec(position as nat)
    &&& e.fields@[1].inline
    &&& e.fields@[2].name@ == "Requested by"@
    &&& e.fields@[2].value@ == spec_mention(requester_id)
    &&& e.fields@[2].inline
    &&& e.color == COLOR_INFO
    &&& opt_str_view(e.thumbnail) == opt_str_view(track.artwork_url)
    &&& e.has_timestamp
}

/// What a "track ended" announcement contains: the track's bold name and a
/// timestamp, no fields.
pub open spec fn is_track_ended_embed(e: Embed, track: TrackMeta) -> bool {
    &&& e.title@ == "Track Ended"@
    &&& e.description@ == spec_track_name(track.author@, track.title@)
    &&& e.fields@.len() == 0
    &&& e.color == COLOR_INFO
    &&& e.thumbnail is None
    &&& e.has_timestamp
}

/// What a "playlist added" announcement contains: the playlist's bold name,
/// the number of tracks added, and the requester.
pub open spec fn is_playlist_added_embed(
    e: Embed,
    name: Seq<char>,
    track_count: u64,
    requester_id: u64,
) -> bool {
    &&& e.title@ == "Playlist Added"@
    &&& e.description@ == "**"@ + name + "**"@
    &&& e.fields@.len() == 2
    &&& e.fields@[0].name@ == "Tracks Added"@
    &&& e.fields@[0].value@ == spec_u64_dec(track_count as nat)
    &&& e.fields@[0].inline
    &&& e.fields@[1].name@ == "Requested by"@
    &&& e.fields@[1].value@ == spec_mention(requester_id)
    &&& e.fields@[1].inline
    &&& e.color == COLOR_INFO
    &&& e.thumbnail is None
    &&& e.has_timestamp
}

/// Builds the announcement embeds around playback lifecycle moments.
#[derive(Debug)]
pub struct AnnouncementBuilder;

impl AnnouncementBuilder {
    /// The announcement posted when a track starts playing.
    pub fn now_playing(track: &TrackMeta, requester_id: u64) -> (e: Embed)
        ensures
            is_now_playing_embed(e, *track, requester_id),
    {
        let mut fields: Vec<EmbedField> = Vec::new();
        fields.push(
            EmbedField {
                name: "Duration".to_owned(),
                value: duration_text(track.length_ms),
                inline: true,
            },
        );
        fields.push(
            EmbedField { name: "Requested by".to_owned(), value: mention(requester_id), inline: true },
        );
        Embed {
            title: "Now Playing".to_owned(),
            description: track_link(track),
            fields,
            color: COLOR_INFO,
            thumbnail: duplicate_opt(&track.artwork_url),
            has_timestamp: true,
        }
    }

    /// The announcement posted when a track is added to the queue at
    /// `position` (1-based).
    pub fn added_to_queue(track: &TrackMeta, requester_id: u64, position: u64) -> (e: Embed)
        ensures
            is_added_to_queue_embed(e, *track, requester_id, position),
    {
        let mut pos = "#".to_owned();
        pos.append(u64_to_dec(position).as_str());
        let mut fields: Vec<EmbedField> = Vec::new();
        fields.push(
            EmbedField {
                name: "Duration".to_owned(),
                value: duration_text(track.length_ms),
                inline: true,
            },
        );
        fields.push(EmbedField { name: "Position".to_owned(), value: pos, inline: true });
        fields.push(
            EmbedField { name: "Requested by".to_owned(), value: mention(requester_id), inline: true },
        );
        Embed {
            title: "Added to Queue".to_owned(),
            description: track_link(track),
            fields,
            color: COLOR_INFO,
            thumbnail: duplicate_opt(&track.artwork_url),
            has_timestamp: true,
        }
    }

    /// The announcement posted when a track ends on its own.
    pub fn track_ended(track: &TrackMeta) -> (e: Embed)
        ensures
            is_track_ended_embed(e, *track),
    {
        Embed {
            title: "Track Ended".to_owned(),
            description: track_name(track),
            fields: Vec::new(),
            color: COLOR_INFO,
            thumbnail: None,
            has_timestamp: true,
        }
    }

    /// The announcement posted when a whole playlist is admitted.
    pub fn playlist_added(name: &str, track_count: u64, requester_id: u64) -> (e: Embed)
        ensures
            is_playlist_added_embed(e, name@, track_count, requester_id),
    {
        let mut desc = "**".to_owned();
        desc.append(name);
        desc.append("**");
        let mut fields: Vec<EmbedField> = Vec::new();
        fields.push(
            EmbedField {
                name: "Tracks Added".to_owned(),
                value: u64_to_dec(track_count),
                inline: true,
            },
        );
        fields.push(
            EmbedField { name: "Requested by".to_owned(), value: mention(requester_id), inline: true },
        );
        Embed {
            title: "Playlist Added".to_owned(),
            description: desc,
            fields,
            color: COLOR_INFO,
            thumbnail: None,
            has_timestamp: true,
        }
    }
}

/// Builds the plain reply embeds commands answer with.
#[derive(Debug)]
pub struct EmbedBuilder;

impl EmbedBuilder {
    /// An error reply: the given title and description in the error color.
    pub fn error(title: String, description: String) -> (e: Embed)
        ensures
            e.title@ == title@,
            e.description@ == description@,
            e.fields@.len() == 0,
            e.color == COLOR_ERROR,
            e.thumbnail is None,
            !e.has_timestamp,
    {
        Embed {
            title,
            description,
            fields: Vec::new(),
            color: COLOR_ERROR,
            thumbnail: None,
            has_timestamp: false,
        }
    }

    /// A success reply: the given title and description in the success color.
    pub fn success(title: String, description: String) -> (e: Embed)
        ensures
            e.title@ == title@,
            e.description@ == description@,
            e.fields@.len() == 0,
            e.color == COLOR_SUCCESS,
            e.thumbnail is None,
            !e.has_timestamp,
    {
        Embed {
            title,
            description,
            fields: Vec::new(),
            color: COLOR_SUCCESS,
            thumbnail: None,
            has_timestamp: false,
        }
    }
}

/// A contents-preserving copy of an optional string.
fn duplicate_opt(o: &Option<String>) -> (r: Option<String>)
    ensures
        opt_str_view(r) == opt_str_view(*o),
{
    match o {
        Some(s) => Some(s.as_str().to_owned()),
        None => None,
    }
}

/// The channel an announcement goes to: the configured announcement channel
/// when one is set, else the session's fallback text channel — and nowhere
/// when announcements are off.
pub open spec fn spec_announce_target(
    announce_songs: bool,
    configured: Option<i64>,
    fallback_channel: i64,
) -> Option<i64> {
    if !announce_songs {
        None
    } else {
        match configured {
            Some(c) => Some(c),
            None => Some(fallback_channel),
        }
    }
}

/// Chooses the announcement channel for `config`, with the session's text
/// channel as the fallback.
pub fn announce_target(config: &GuildConfig, fallback_channel: i64) -> (r: Option<i64>)
    ensures
        r == spec_announce_target(
            config.announce_songs,
            config.announce_channel_id,
            fallback_channel,
        ),
{
    if !config.announce_songs {
        None
    } else {
        match config.announce_channel_id {
            Some(c) => Some(c),
            None => Some(fallback_channel),
        }
    }
}

} // verus!
