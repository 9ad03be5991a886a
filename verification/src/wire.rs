//! The WebSocket bridge's wire protocol: reading the fields of an incoming
//! JSON control frame, validating them (required fields, numeric ranges) into
//! a typed request, and the typed replies the bridge answers with.
//!
//! The JSON parse is the one outside call on this path.  Its outcome is a
//! function of the frame's text alone, so the names below stand for it:
//! whether the text is JSON, and what each of the five recognised fields of
//! the parsed document holds.  The trusted `read_request_fields` speaks in
//! those names; everything decided about the fields — which requests exist,
//! which fields each needs, which values are in range — is verified in
//! `classify_request`, and `parse_request` ties the two together with an
//! exact contract over the names.

use vstd::prelude::*;

use crate::queue::TrackMeta;
use crate::strutil::{parse_u64_decimal, spec_is_u64_decimal, spec_u64_value};

verus! {

/// Whether `text` parses as a JSON document (what `serde_json::from_str`
/// accepts; deterministic in the text).
pub uninterp spec fn spec_json_ok(text: Seq<char>) -> bool;

/// The `type` string of the document parsed from `text` (meaningful when
/// `spec_json_ok` holds): `None` when the document is no object, lacks the
/// key, or holds a non-string under it.
pub uninterp spec fn spec_type_field(text: Seq<char>) -> Option<Seq<char>>;

/// The `guild_id` string of the document parsed from `text`, as
/// `spec_type_field`.
pub uninterp spec fn spec_guild_field(text: Seq<char>) -> Option<Seq<char>>;

/// The `track_id` string of the document parsed from `text`, as
/// `spec_type_field`.
pub uninterp spec fn spec_track_field(text: Seq<char>) -> Option<Seq<char>>;

/// The `volume` integer of the document parsed from `text`: `None` when
/// missing, not an integer, or not representable as `i64`.
pub uninterp spec fn spec_volume_field(text: Seq<char>) -> Option<i64>;

/// The `position` integer of the document parsed from `text`, as
/// `spec_volume_field`.
pub uninterp spec fn spec_position_field(text: Seq<char>) -> Option<i64>;

/// The raw fields a control frame may carry, each `None` when missing or of
/// the wrong JSON type.
#[derive(Debug)]
pub struct RawRequest {
    pub msg_type: Option<String>,
    pub guild_id: Option<String>,
    pub track_id: Option<String>,
    pub volume: Option<i64>,
    pub position: Option<i64>,
}

/// Reads a control frame's fields out of its JSON text; `None` exactly when
/// the text is not JSON.
///
/// Relies on `serde_json::from_str::<Value>`, `Value::get`, `Value::as_str`
/// and `Value::as_i64`: the parse succeeds exactly for JSON text, and each
/// accessor hands out the named field of the parsed document — all functions
/// of the text alone.
#[verifier::external_body]
fn read_request_fields(text: &str) -> (r: Option<RawRequest>)
    ensures
        (r is Some) == spec_json_ok(text@),
        r matches Some(raw) ==> {
            &&& opt_view(raw.msg_type) == spec_type_field(text@)
            &&& opt_view(raw.guild_id) == spec_guild_field(text@)
            &&& opt_view(raw.track_id) == spec_track_field(text@)
            &&& raw.volume == spec_volume_field(text@)
            &&& raw.position == spec_position_field(text@)
        },
{
    let v: serde_json::Value = serde_json::from_str(text).ok()?;
    Some(
        RawRequest {
            msg_type: v.get("type").and_then(|x| x.as_str()).map(|s| s.to_string()),
            guild_id: v.get("guild_id").and_then(|x| x.as_str()).map(|s| s.to_string()),
            track_id: v.get("track_id").and_then(|x| x.as_str()).map(|s| s.to_string()),
            volume: v.get("volume").and_then(|x| x.as_i64()),
            position: v.get("position").and_then(|x| x.as_i64()),
        },
    )
}

/// Everything a control frame can be rejected for.
#[derive(Clone, Copy, PartialEq, Eq, Structural, Debug)]
pub enum WsError {
    /// The frame is not JSON.
    InvalidJson,
    /// The frame has no `type` string.
    MissingType,
    /// The `type` is none of the known requests.
    UnknownType,
    /// The request needs a `guild_id` string and has none.
    MissingGuildId,
    /// The `guild_id` string is not a decimal identifier.
    InvalidGuildId,
    /// A play request has no `track_id` string.
    MissingTrackId,
    /// A volume request has no integer `volume`.
    MissingVolume,
    /// The volume is outside 0 to 1000.
    VolumeOutOfRange,
    /// A seek request has no integer `position`.
    MissingPosition,
    /// The seek position is negative.
    NegativePosition,
}

impl WsError {
    /// The error text sent back to the client.
    pub fn message(&self) -> (r: &'static str)
        ensures
            r@ == self.message_spec(),
    {
        match self {
            WsError::InvalidJson => "Invalid JSON format",
            WsError::MissingType => "Missing 'type' field",
            WsError::UnknownType => "Unknown message type",
            WsError::MissingGuildId => "Missing 'guild_id' field",
            WsError::InvalidGuildId => "Invalid guild_id format",
            WsError::MissingTrackId => "Missing 'track_id' field",
            WsError::MissingVolume => "Missing or invalid 'volume' field",
            WsError::VolumeOutOfRange => "Volume must be between 0 and 1000",
            WsError::MissingPosition => "Missing or invalid 'position' field",
            WsError::NegativePosition => "Position must be a positive value",
        }
    }

    /// What `message` returns for each variant.
    pub open spec fn message_spec(&self) -> Seq<char> {
        match self {
            WsError::InvalidJson => "Invalid JSON format"@,
            WsError::MissingType => "Missing 'type' field"@,
            WsError::UnknownType => "Unknown message type"@,
            WsError::MissingGuildId => "Missing 'guild_id' field"@,
            WsError::InvalidGuildId => "Invalid guild_id format"@,
            WsError::MissingTrackId => "Missing 'track_id' field"@,
            WsError::MissingVolume => "Missing or invalid 'volume' field"@,
            WsError::VolumeOutOfRange => "Volume must be between 0 and 1000"@,
            WsError::MissingPosition => "Missing or invalid 'position' field"@,
            WsError::NegativePosition => "Position must be a positive value"@,
        }
    }
}

/// A validated control request.
#[derive(Debug)]
pub enum WsRequest {
    Ping,
    Status,
    Subscribe { guild_id: u64 },
    Play { guild_id: u64, track_id: String },
    Skip { guild_id: u64 },
    Pause { guild_id: u64 },
    Resume { guild_id: u64 },
    Stop { guild_id: u64 },
    Volume { guild_id: u64, volume: u16 },
    Seek { guild_id: u64, position_ms: u64 },
    QueueInfo { guild_id: u64 },
    PlayerInfo { guild_id: u64 },
}

/// The spec-level image of a validated request.
pub ghost enum ReqView {
    Ping,
    Status,
    Subscribe { guild_id: u64 },
    Play { guild_id: u64, track_id: Seq<char> },
    Skip { guild_id: u64 },
    Pause { guild_id: u64 },
    Resume { guild_id: u64 },
    Stop { guild_id: u64 },
    Volume { guild_id: u64, volume: u16 },
    Seek { guild_id: u64, position_ms: u64 },
    QueueInfo { guild_id: u64 },
    PlayerInfo { guild_id: u64 },
}

impl View for WsRequest {
    type V = ReqView;

    open spec fn view(&self) -> ReqView {
        match self {
            WsRequest::Ping => ReqView::Ping,
            WsRequest::Status => ReqView::Status,
            WsRequest::Subscribe { guild_id } => ReqView::Subscribe { guild_id: *guild_id },
            WsRequest::Play { guild_id, track_id } => ReqView::Play {
                guild_id: *guild_id,
                track_id: track_id@,
            },
            WsRequest::Skip { guild_id } => ReqView::Skip { guild_id: *guild_id },
            WsRequest::Pause { guild_id } => ReqView::Pause { guild_id: *guild_id },
            WsRequest::Resume { guild_id } => ReqView::Resume { guild_id: *guild_id },
            WsRequest::Stop { guild_id } => ReqView::Stop { guild_id: *guild_id },
            WsRequest::Volume { guild_id, volume } => ReqView::Volume {
                guild_id: *guild_id,
                volume: *volume,
            },
            WsRequest::Seek { guild_id, position_ms } => ReqView::Seek {
                guild_id: *guild_id,
                position_ms: *position_ms,
            },
            WsRequest::QueueInfo { guild_id } => ReqView::QueueInfo { guild_id: *guild_id },
            WsRequest::PlayerInfo { guild_id } => ReqView::PlayerInfo { guild_id: *guild_id },
        }
    }
}

/// The contents of an `Option<String>`.
pub open spec fn opt_view(o: Option<String>) -> Option<Seq<char>> {
    match o {
        Some(s) => Some(s@),
        None => None,
    }
}

/// The guild a request addresses: the `guild_id` string read as a decimal
/// identifier; missing or malformed strings are rejected.
pub open spec fn spec_guild_of(g: Option<Seq<char>>) -> Result<u64, WsError> {
    match g {
        None => Err(WsError::MissingGuildId),
        Some(cs) => if spec_is_u64_decimal(cs) {
            Ok(spec_u64_value(cs) as u64)
        } else {
            Err(WsError::InvalidGuildId)
        },
    }
}

/// The whole validation table: what every combination of raw fields
/// classifies to.  `ping` and `status` need nothing further; `subscribe`,
/// `skip`, `pause`, `resume`, `stop`, `queue` and `player_info` need a guild;
/// `play` also needs a track; `volume` also needs an integer volume within 0
/// to 1000; `seek` also needs a non-negative integer position.  An unknown
/// `type` is rejected without closing the connection.
pub open spec fn spec_classify(
    t: Option<Seq<char>>,
    g: Option<Seq<char>>,
    track: Option<Seq<char>>,
    vol: Option<i64>,
    pos: Option<i64>,
) -> Result<ReqView, WsError> {
    match t {
        None => Err(WsError::MissingType),
        Some(tt) => if tt == "ping"@ {
            Ok(ReqView::Ping)
        } else if tt == "status"@ {
            Ok(ReqView::Status)
        } else if tt == "subscribe"@ {
            match spec_guild_of(g) {
                Ok(gid) => Ok(ReqView::Subscribe { guild_id: gid }),
                Err(e) => Err(e),
            }
        } else if tt == "play"@ {
            match g {
                None => Err(WsError::MissingGuildId),
                Some(_) => match track {
                    None => Err(WsError::MissingTrackId),
                    Some(tr) => match spec_guild_of(g) {
                        Ok(gid) => Ok(ReqView::Play { guild_id: gid, track_id: tr }),
                        Err(e) => Err(e),
                    },
                },
            }
        } else if tt == "skip"@ {
            match spec_guild_of(g) {
                Ok(gid) => Ok(ReqView::Skip { guild_id: gid }),
                Err(e) => Err(e),
            }
        } else if tt == "pause"@ {
            match spec_guild_of(g) {
                Ok(gid) => Ok(ReqView::Pause { guild_id: gid }),
                Err(e) => Err(e),
            }
        } else if tt == "resume"@ {
            match spec_guild_of(g) {
                Ok(gid) => Ok(ReqView::Resume { guild_id: gid }),
                Err(e) => Err(e),
            }
        } else if tt == "stop"@ {
            match spec_guild_of(g) {
                Ok(gid) => Ok(ReqView::Stop { guild_id: gid }),
                Err(e) => Err(e),
            }
        } else if tt == "volume"@ {
            match g {
                None => Err(WsError::MissingGuildId),
                Some(_) => match vol {
                    None => Err(WsError::MissingVolume),
                    Some(v) => match spec_guild_of(g) {
                        Ok(gid) => if 0 <= v <= 1000 {
                            Ok(ReqView::Volume { guild_id: gid, volume: v as u16 })
                        } else {
                            Err(WsError::VolumeOutOfRange)
                        },
                        Err(e) => Err(e),
                    },
                },
            }
        } else if tt == "seek"@ {
            match g {
                None => Err(WsError::MissingGuildId),
                Some(_) => match pos {
                    None => Err(WsError::MissingPosition),
                    Some(p) => match spec_guild_of(g) {
                        Ok(gid) => if p >= 0 {
                            Ok(ReqView::Seek { guild_id: gid, position_ms: p as u64 })
                        } else {
                            Err(WsError::NegativePosition)
                        },
                        Err(e) => Err(e),
                    },
                },
            }
        } else if tt == "queue"@ {
            match spec_guild_of(g) {
                Ok(gid) => Ok(ReqView::QueueInfo { guild_id: gid }),
                Err(e) => Err(e),
            }
        } else if tt == "player_info"@ {
            match spec_guild_of(g) {
                Ok(gid) => Ok(ReqView::PlayerInfo { guild_id: gid }),
                Err(e) => Err(e),
            }
        } else {
            Err(WsError::UnknownType)
        },
    }
}

/// A classification result, viewed.
pub open spec fn result_view(r: Result<WsRequest, WsError>) -> Result<ReqView, WsError> {
    match r {
        Ok(q) => Ok(q@),
        Err(e) => Err(e),
    }
}

/// Parses the guild field of `raw`.
fn guild_of(g: &Option<String>) -> (r: Result<u64, WsError>)
    ensures
        r == spec_guild_of(opt_view(*g)),
{
    match g {
        None => Err(WsError::MissingGuildId),
        Some(cs) => match parse_u64_decimal(cs.as_str()) {
            Some(v) => Ok(v),
            None => Err(WsError::InvalidGuildId),
        },
    }
}

/// Validates a control frame's raw fields into a typed request, exactly as
/// `spec_classify` lays down.
pub fn classify_request(raw: RawRequest) -> (r: Result<WsRequest, WsError>)
    ensures
        result_view(r) == spec_classify(
            opt_view(raw.msg_type),
            opt_view(raw.guild_id),
            opt_view(raw.track_id),
            raw.volume,
            raw.position,
        ),
{
    let RawRequest { msg_type, guild_id, track_id, volume, position } = raw;
    let t = match msg_type {
        None => {
            return Err(WsError::MissingType);
        },
        Some(t) => t,
    };
    // Comparisons go through `String`, whose equality means view equality.
    if t == "ping".to_owned() {
        Ok(WsRequest::Ping)
    } else if t == "status".to_owned() {
        Ok(WsRequest::Status)
    } else if t == "subscribe".to_owned() {
        match guild_of(&guild_id) {
            Ok(gid) => Ok(WsRequest::Subscribe { guild_id: gid }),
            Err(e) => Err(e),
        }
    } else if t == "play".to_owned() {
        if guild_id.is_none() {
            return Err(WsError::MissingGuildId);
        }
        let tr = match track_id {
            None => {
                return Err(WsError::MissingTrackId);
            },
            Some(tr) => tr,
        };
        match guild_of(&guild_id) {
            Ok(gid) => Ok(WsRequest::Play { guild_id: gid, track_id: tr }),
            Err(e) => Err(e),
        }
    } else if t == "skip".to_owned() {
        match guild_of(&guild_id) {
            Ok(gid) => Ok(WsRequest::Skip { guild_id: gid }),
            Err(e) => Err(e),
        }
    } else if t == "pause".to_owned() {
        match guild_of(&guild_id) {
            Ok(gid) => Ok(WsRequest::Pause { guild_id: gid }),
            Err(e) => Err(e),
        }
    } else if t == "resume".to_owned() {
        match guild_of(&guild_id) {
            Ok(gid) => Ok(WsRequest::Resume { guild_id: gid }),
            Err(e) => Err(e),
        }
    } else if t == "stop".to_owned() {
        match guild_of(&guild_id) {
            Ok(gid) => Ok(WsRequest::Stop { guild_id: gid }),
            Err(e) => Err(e),
        }
    } else if t == "volume".to_owned() {
        if guild_id.is_none() {
            return Err(WsError::MissingGuildId);
        }
        let v = match volume {
            None => {
                return Err(WsError::MissingVolume);
            },
            Some(v) => v,
        };
        match guild_of(&guild_id) {
            Ok(gid) => {
                if 0 <= v && v <= 1000 {
                    Ok(WsRequest::Volume { guild_id: gid, volume: v as u16 })
                } else {
                    Err(WsError::VolumeOutOfRange)
                }
            },
            Err(e) => Err(e),
        }
    } else if t == "seek".to_owned() {
        if guild_id.is_none() {
            return Err(WsError::MissingGuildId);
        }
        let p = match position {
            None => {
                return Err(WsError::MissingPosition);
            },
            Some(p) => p,
        };
        match guild_of(&guild_id) {
            Ok(gid) => {
                if p >= 0 {
                    Ok(WsRequest::Seek { guild_id: gid, position_ms: p as u64 })
                } else {
                    Err(WsError::NegativePosition)
                }
            },
            Err(e) => Err(e),
        }
    } else if t == "queue".to_owned() {
        match guild_of(&guild_id) {
            Ok(gid) => Ok(WsRequest::QueueInfo { guild_id: gid }),
            Err(e) => Err(e),
        }
    } else if t == "player_info".to_owned() {
        match guild_of(&guild_id) {
            Ok(gid) => Ok(WsRequest::PlayerInfo { guild_id: gid }),
            Err(e) => Err(e),
        }
    } else {
        Err(WsError::UnknownType)
    }
}

/// Reads and validates one incoming text frame.  Text that is not JSON is
/// rejected with `InvalidJson`; JSON text classifies exactly as
/// `spec_classify` lays down over the document's named fields.
pub fn parse_request(text: &str) -> (r: Result<WsRequest, WsError>)
    ensures
        !spec_json_ok(text@) ==> (r matches Err(e) && e == WsError::InvalidJson),
        spec_json_ok(text@) ==> result_view(r) == spec_classify(
            spec_type_field(text@),
            spec_guild_field(text@),
            spec_track_field(text@),
            spec_volume_field(text@),
            spec_position_field(text@),
        ),
{
    match read_request_fields(text) {
        None => Err(WsError::InvalidJson),
        Some(raw) => classify_request(raw),
    }
}

/// A typed reply frame; the boundary serializes it, adding the `timestamp`
/// every reply carries.
#[derive(Debug)]
pub enum WsReply {
    /// Answer to `ping`.
    Pong,
    /// Answer to `status`.
    Status { lavalink_connected: bool },
    /// Confirmation of a subscription, echoing the guild.
    Subscribed { guild_id: u64 },
    /// A rejected frame, with the reason.
    Error { error: WsError },
    /// Confirmation that a play request was handed to the audio node.
    PlayResponse { guild_id: u64, track_id: String },
    /// Confirmations of the playback controls.
    SkipResponse { guild_id: u64 },
    PauseResponse { guild_id: u64 },
    ResumeResponse { guild_id: u64 },
    StopResponse { guild_id: u64 },
    VolumeResponse { guild_id: u64, volume: u16 },
    SeekResponse { guild_id: u64, position_ms: u64 },
    /// The queue snapshot: the mirrored current track and the pending tracks.
    QueueResponse { guild_id: u64, current_track: Option<TrackMeta>, tracks: Vec<TrackMeta> },
    /// The player snapshot.
    PlayerInfoResponse { guild_id: u64, connected: bool, paused: bool, position_ms: u64 },
}

} // verus!
