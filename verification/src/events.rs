//! The event dispatcher: a pure function per audio-node lifecycle event from
//! (event, guild configuration, session fallback channel) to the announcement
//! to post and the broadcast to relay to subscribed WebSocket clients.
//! Posting and relaying — and logging failures without letting one guild's
//! failure affect another — stay with the embedding program.

use vstd::prelude::*;

use crate::announce::{
    AnnouncementBuilder, Embed, is_now_playing_embed, is_track_ended_embed, spec_announce_target,
    spec_track_name, COLOR_ERROR,
};
use crate::config::GuildConfig;
use crate::queue::TrackMeta;
use crate::strutil::{opt_str_view, spec_u64_dec, u64_to_dec};

verus! {

/// Why the audio node reported a track as ended.
#[derive(Clone, Copy, PartialEq, Eq, Structural, Debug)]
pub enum TrackEndReason {
    /// The track played to its end.
    Finished,
    /// The track failed to load or play.
    LoadFailed,
    /// Playback was stopped deliberately.
    Stopped,
    /// The track was replaced by another in flight.
    Replaced,
    /// The player was cleaned up.
    Cleanup,
}

/// Whether an end reason is announced: an intentional in-flight replacement
/// or stop is not; a natural end or failure is.
pub open spec fn spec_end_announced(reason: TrackEndReason) -> bool {
    !(reason is Replaced) && !(reason is Stopped)
}

/// A chat message to post: the target channel and the embed.
#[derive(Debug)]
pub struct Announcement {
    pub channel_id: i64,
    pub embed: Embed,
}

/// What a broadcast frame tells the subscribed clients.
#[derive(Debug)]
pub enum BroadcastPayload {
    /// A track started: its snapshot, sent whether or not the guild announces.
    TrackUpdate {
        title: String,
        author: String,
        uri: Option<String>,
        artwork_url: Option<String>,
        length_ms: u64,
        /// The requester's id in decimal, empty when unknown.
        requester_id: String,
    },
    /// A track ended, with the node's raw reason.
    TrackEnd { title: String, author: String, reason: TrackEndReason },
    /// A track failed, with the node's message and severity.
    TrackException { title: String, author: String, error: String, severity: String },
    /// The node's voice connection closed.
    VoiceDisconnected { code: u32, close_reason: String, by_remote: bool },
}

/// One event fanned out: the broadcast always present, the announcement only
/// when the event and the guild's settings call for one.
#[derive(Debug)]
pub struct DispatchOutput {
    pub guild_id: u64,
    pub announcement: Option<Announcement>,
    pub broadcast: BroadcastPayload,
}

/// The requester attribution a track snapshot carries: the id in decimal, or
/// empty when the track has none.
pub open spec fn spec_requester_text(requester_id: Option<u64>) -> Seq<char> {
    match requester_id {
        Some(id) => spec_u64_dec(id as nat),
        None => Seq::empty(),
    }
}

/// A track started playing.  The broadcast carries the track snapshot with
/// requester attribution, always.  The announcement is posted exactly when
/// the guild announces songs, to the configured channel or the session's
/// fallback, and is the "now playing" embed crediting the requester (user 0
/// when unknown).
pub fn track_start(
    guild_id: u64,
    track: &TrackMeta,
    requester_id: Option<u64>,
    config: &GuildConfig,
    fallback_channel: i64,
) -> (o: DispatchOutput)
    ensures
        o.guild_id == guild_id,
        o.broadcast matches BroadcastPayload::TrackUpdate {
            title,
            author,
            uri,
            artwork_url,
            length_ms,
            requester_id: rq,
        } && title@ == track.title@ && author@ == track.author@ && opt_str_view(uri)
            == opt_str_view(track.uri) && opt_str_view(artwork_url) == opt_str_view(
            track.artwork_url,
        ) && length_ms == track.length_ms && rq@ == spec_requester_text(requester_id),
        config.announce_songs ==> (o.announcement matches Some(a) && Some(a.channel_id)
            == spec_announce_target(true, config.announce_channel_id, fallback_channel)
            && is_now_playing_embed(
            a.embed,
            *track,
            match requester_id {
                Some(id) => id,
                None => 0,
            },
        )),
        !config.announce_songs ==> o.announcement is None,
{
    let requester_text = match requester_id {
        Some(id) => u64_to_dec(id),
        None => {
            let s = "".to_owned();
            proof {
                reveal_strlit("");
                assert(""@ =~= Seq::<char>::empty());
            }
            s
        },
    };
    let broadcast = BroadcastPayload::TrackUpdate {
        title: track.title.as_str().to_owned(),
        author: track.author.as_str().to_owned(),
        uri: duplicate_opt(&track.uri),
        artwork_url: duplicate_opt(&track.artwork_url),
        length_ms: track.length_ms,
        requester_id: requester_text,
    };
    let announcement = if config.announce_songs {
        let channel = match config.announce_channel_id {
            Some(c) => c,
            None => fallback_channel,
        };
        let embed = AnnouncementBuilder::now_playing(
            track,
            match requester_id {
                Some(id) => id,
                None => 0,
            },
        );
        Some(Announcement { channel_id: channel, embed })
    } else {
        None
    };
    DispatchOutput { guild_id, announcement, broadcast }
}

/// A track ended.  The broadcast always carries the raw reason.  The
/// announcement is posted exactly when the end was not an intentional
/// replacement or stop and the guild announces songs, to the configured
/// channel or the fallback.
pub fn track_end(
    guild_id: u64,
    track: &TrackMeta,
    reason: TrackEndReason,
    config: &GuildConfig,
    fallback_channel: i64,
) -> (o: DispatchOutput)
    ensures
        o.guild_id == guild_id,
        o.broadcast matches BroadcastPayload::TrackEnd { title, author, reason: rr } && title@
            == track.title@ && author@ == track.author@ && rr == reason,
        (spec_end_announced(reason) && config.announce_songs) ==> (o.announcement matches Some(a)
            && Some(a.channel_id) == spec_announce_target(
            true,
            config.announce_channel_id,
            fallback_channel,
        ) && is_track_ended_embed(a.embed, *track)),
        !(spec_end_announced(reason) && config.announce_songs) ==> o.announcement is None,
{
    let broadcast = BroadcastPayload::TrackEnd {
        title: track.title.as_str().to_owned(),
        author: track.author.as_str().to_owned(),
        reason,
    };
    let announced = !matches!(reason, TrackEndReason::Replaced) && !matches!(
        reason,
        TrackEndReason::Stopped,
    );
    let announcement = if announced && config.announce_songs {
        let channel = match config.announce_channel_id {
            Some(c) => c,
            None => fallback_channel,
        };
        Some(Announcement { channel_id: channel, embed: AnnouncementBuilder::track_ended(track) })
    } else {
        None
    };
    DispatchOutput { guild_id, announcement, broadcast }
}

/// A track failed.  Playback failures are always surfaced: the announcement
/// goes to the session's primary channel whatever the announce setting, and
/// the broadcast always carries the error.
pub fn track_exception(
    guild_id: u64,
    track: &TrackMeta,
    error: &str,
    severity: &str,
    primary_channel: i64,
) -> (o: DispatchOutput)
    ensures
        o.guild_id == guild_id,
        o.broadcast matches BroadcastPayload::TrackException {
            title,
            author,
            error: er,
            severity: sv,
        } && title@ == track.title@ && author@ == track.author@ && er@ == error@ && sv@
            == severity@,
        o.announcement matches Some(a) && a.channel_id == primary_channel && a.embed.title@
            == "Playback Error"@ && a.embed.description@ == "Failed to play "@ + spec_track_name(
            track.author@,
            track.title@,
        ) + " - "@ + error@ && a.embed.color == COLOR_ERROR,
{
    let broadcast = BroadcastPayload::TrackException {
        title: track.title.as_str().to_owned(),
        author: track.author.as_str().to_owned(),
        error: error.to_owned(),
        severity: severity.to_owned(),
    };
    let mut desc = "Failed to play ".to_owned();
    desc.append(crate::announce::track_name(track).as_str());
    desc.append(" - ");
    desc.append(error);
    let embed = Embed {
        title: "Playback Error".to_owned(),
        description: desc,
        fields: Vec::new(),
        color: COLOR_ERROR,
        thumbnail: None,
        has_timestamp: false,
    };
    DispatchOutput {
        guild_id,
        announcement: Some(Announcement { channel_id: primary_channel, embed }),
        broadcast,
    }
}

/// The node's voice connection closed.  The event is always broadcast and
/// never announced, and by itself tears nothing down: reconnection or
/// teardown is a separate decision.
pub fn websocket_closed(guild_id: u64, code: u32, reason: &str, by_remote: bool) -> (o:
    DispatchOutput)
    ensures
        o.guild_id == guild_id,
        o.broadcast matches BroadcastPayload::VoiceDisconnected { code: c, close_reason: rr, by_remote: b }
            && c == code && rr@ == reason@ && b == by_remote,
        o.announcement is None,
{
    DispatchOutput {
        guild_id,
        announcement: None,
        broadcast: BroadcastPayload::VoiceDisconnected {
            code,
            close_reason: reason.to_owned(),
            by_remote,
        },
    }
}

/// A contents-preserving copy of an optional string.
fn duplicate_opt(o: &Option<String>) -> (r: Option<String>)
    ensures
        opt_str_view(r) == opt_str_view(*o),
{
    match o {
        Some(s) => Some(s.as_str().to_owned()),
        None => None,
    }
}

} // verus!
