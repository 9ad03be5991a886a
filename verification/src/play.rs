//! Play admission: how a search term becomes a query, how the audio node's
//! load result becomes a batch of queued tracks, and when the one
//! start-playback directive is issued.

use vstd::prelude::*;
use vstd::string::StringSliceAdditionalSpecFns;
use vstd::utf8::encode_utf8;

use crate::errors::BotError;
use crate::queue::{QueuedTrack, TrackMeta, spec_admitted};
use crate::session::{SessionRegistry, active_session, same_session_frame, session_for};

verus! {

/// How a play request's search term reaches the audio node.
#[derive(Debug)]
pub enum Query {
    /// The term looks like a direct resource locator: passed through verbatim.
    Direct(String),
    /// Anything else: handed to the node as a provider search for the term.
    ProviderSearch(String),
}

/// Whether the byte sequence starts with the four bytes `http`.
pub open spec fn spec_starts_with_http(s: Seq<u8>) -> bool {
    s.len() >= 4 && s[0] == 104 && s[1] == 116 && s[2] == 116 && s[3] == 112
}

/// Classifies a search term: a term whose bytes start with `http` is a direct
/// locator and passes through verbatim; any other term becomes a provider
/// search query for exactly that term.
pub fn resolve_query(term: String) -> (q: Query)
    ensures
        spec_starts_with_http(encode_utf8(term@)) ==> (q matches Query::Direct(t) && t
            == term),
        !spec_starts_with_http(encode_utf8(term@)) ==> (q
            matches Query::ProviderSearch(t) && t == term),
{
    let bs = term.as_str().as_bytes();
    if bs.len() >= 4 && bs[0] == 104 && bs[1] == 116 && bs[2] == 116 && bs[3] == 112 {
        Query::Direct(term)
    } else {
        Query::ProviderSearch(term)
    }
}

/// What the audio node answered to a load request, reduced to what the
/// admission logic reads.
#[derive(Debug)]
pub enum LoadResult {
    /// A single track.
    Single(TrackMeta),
    /// A provider search's result list.
    Search(Vec<TrackMeta>),
    /// A playlist: its name and its tracks, in playlist order.
    Playlist(String, Vec<TrackMeta>),
    /// Nothing matched.
    Empty,
}

/// The tracks a load result admits for queueing: the single track, the first
/// search hit, or the whole playlist in order.
pub open spec fn spec_load_tracks(load: LoadResult) -> Seq<TrackMeta> {
    match load {
        LoadResult::Single(t) => seq![t],
        LoadResult::Search(ts) => if ts@.len() > 0 {
            seq![ts@[0]]
        } else {
            Seq::empty()
        },
        LoadResult::Playlist(_, ts) => ts@,
        LoadResult::Empty => Seq::empty(),
    }
}

/// The playlist name of a load result, if it was a playlist.
pub open spec fn spec_load_playlist_name(load: LoadResult) -> Option<Seq<char>> {
    match load {
        LoadResult::Playlist(name, _) => Some(name@),
        _ => None,
    }
}

/// `ts` with `requester` attached to every track.
pub open spec fn spec_attach_requester(ts: Seq<TrackMeta>, requester: u64) -> Seq<QueuedTrack> {
    ts.map_values(|t: TrackMeta| QueuedTrack { track: t, requester_id: requester })
}

/// One autocomplete suggestion: the label shown and the value submitted.
#[derive(Debug)]
pub struct SearchChoice {
    pub label: String,
    pub value: String,
}

/// The `author - title` label of a suggested track.
pub open spec fn spec_choice_label(t: TrackMeta) -> Seq<char> {
    t.author@ + " - "@ + t.title@
}

/// The submitted value of a suggested track: its locator, empty without one.
pub open spec fn spec_choice_value(t: TrackMeta) -> Seq<char> {
    match t.uri {
        Some(u) => u@,
        None => Seq::empty(),
    }
}

/// Whether a partial search term is worth suggesting for: at least two bytes.
pub fn autocomplete_wanted(partial: &str) -> (r: bool)
    ensures
        r == (encode_utf8(partial@).len() >= 2),
{
    let bs = partial.as_bytes();
    proof {
        assert(bs@ =~= encode_utf8(partial@));
    }
    bs.len() >= 2
}

/// Builds one suggestion for `t`.
fn choice_of(t: &TrackMeta) -> (c: SearchChoice)
    ensures
        c.label@ =~= spec_choice_label(*t),
        c.value@ =~= spec_choice_value(*t),
{
    let mut label = t.author.as_str().to_owned();
    label.append(" - ");
    label.append(t.title.as_str());
    let value = match &t.uri {
        Some(u) => u.as_str().to_owned(),
        None => {
            let s = "".to_owned();
            proof {
                reveal_strlit("");
                assert(""@ =~= Seq::<char>::empty());
            }
            s
        },
    };
    SearchChoice { label, value }
}

/// The suggestions a partially typed play command offers, from what the node
/// found for the partial term: each search hit (at most 25), or the one
/// track, or the playlist under its name with the query itself as the value —
/// and nothing for an empty result.
pub fn autocomplete_choices(load: &LoadResult, query: &str) -> (r: Vec<SearchChoice>)
    ensures
        load matches LoadResult::Single(t) ==> (r@.len() == 1 && r@[0].label@ == spec_choice_label(
            *t,
        ) && r@[0].value@ == spec_choice_value(*t)),
        load matches LoadResult::Search(ts) ==> ({
            let shown = if ts@.len() <= 25 {
                ts@.len() as int
            } else {
                25
            };
            r@.len() == shown && forall|k: int|
                0 <= k < shown ==> (#[trigger] r@[k]).label@ == spec_choice_label(ts@[k])
                    && r@[k].value@ == spec_choice_value(ts@[k])
        }),
        load matches LoadResult::Playlist(name, _) ==> (r@.len() == 1 && r@[0].label@ == name@
            && r@[0].value@ == query@),
        load is Empty ==> r@.len() == 0,
{
    match load {
        LoadResult::Single(t) => {
            let mut v: Vec<SearchChoice> = Vec::new();
            v.push(choice_of(t));
            v
        },
        LoadResult::Search(ts) => {
            let n = ts.len();
            let shown: usize = if n <= 25 {
                n
            } else {
                25
            };
            let mut v: Vec<SearchChoice> = Vec::new();
            let mut i: usize = 0;
            while i < shown
                invariant
                    shown <= ts@.len(),
                    0 <= i <= shown,
                    v@.len() == i,
                    forall|k: int|
                        0 <= k < i ==> (#[trigger] v@[k]).label@ == spec_choice_label(ts@[k])
                            && v@[k].value@ == spec_choice_value(ts@[k]),
                decreases shown - i,
            {
                v.push(choice_of(&ts[i]));
                i = i + 1;
            }
            v
        },
        LoadResult::Playlist(name, _) => {
            let mut v: Vec<SearchChoice> = Vec::new();
            v.push(SearchChoice { label: name.as_str().to_owned(), value: query.to_owned() });
            v
        },
        LoadResult::Empty => Vec::new(),
    }
}

/// What a play request came to.
#[derive(Debug)]
pub enum PlayOutcome {
    /// The node found nothing for the query.
    NoMatches,
    /// Tracks were admitted to the queue.
    Queued {
        /// How many tracks entered the queue.
        admitted: usize,
        /// How many were turned away by the queue bound.
        rejected: usize,
        /// The playlist's name when a whole playlist was admitted.
        playlist_name: Option<String>,
        /// Whether the caller must issue the start-playback directive — true
        /// exactly when the node reported nothing playing, and never issued
        /// twice for one admission.
        start_playback: bool,
    },
}

impl SessionRegistry {
    /// Admits the tracks of `load` into guild `g`'s queue, requested by
    /// `requester_id`, given the node's report `node_playing` of whether a
    /// track is currently playing.
    ///
    /// Fails with `NoActiveSession` when the guild has no active session, and
    /// with `QueueCapacityExceeded` (carrying the bound), before any
    /// admission, when the queue is already at capacity.  An empty load
    /// result is `NoMatches`.  Otherwise the tracks — each carrying the
    /// requester — are appended under the queue's admission rule, and the
    /// start-playback directive is requested exactly when the node reported
    /// nothing playing: once per admission, never twice.
    pub fn admit_play(
        &mut self,
        g: u64,
        load: LoadResult,
        requester_id: u64,
        node_playing: bool,
    ) -> (r: Result<PlayOutcome, BotError>)
        requires
            old(self).wf(),
        ensures
            final(self).wf(),
            !active_session(old(self)@, g) ==> (r matches Err(e) && e == BotError::NoActiveSession
                && final(self)@ == old(self)@),
            active_session(old(self)@, g) ==> (session_for(old(self)@, g) matches Some(s) && {
                let incoming = spec_load_tracks(load);
                let admitted = spec_admitted(s.queue@.len(), s.queue.spec_max(), incoming.len());
                if incoming.len() == 0 {
                    r matches Ok(o) && o is NoMatches && final(self)@ == old(self)@
                } else if s.queue@.len() >= s.queue.spec_max() {
                    r matches Err(e) && e == BotError::QueueCapacityExceeded(
                        s.queue.spec_max() as u32,
                    ) && final(self)@ == old(self)@
                } else {
                    &&& r matches Ok(o)
                    &&& o matches PlayOutcome::Queued {
                        admitted: a,
                        rejected: rej,
                        playlist_name,
                        start_playback,
                    }
                    &&& a == admitted
                    &&& a + rej == incoming.len()
                    &&& start_playback == !node_playing
                    &&& match playlist_name {
                        Some(n) => spec_load_playlist_name(load) == Some(n@),
                        None => spec_load_playlist_name(load) is None,
                    }
                    &&& session_for(final(self)@, g) matches Some(t)
                    &&& t.queue@ =~= s.queue@ + spec_attach_requester(incoming, requester_id).take(
                        admitted as int,
                    )
                    &&& same_session_frame(s, t)
                    &&& t.current_track == s.current_track
                }
            }),
            forall|h: u64| h != g ==> session_for(final(self)@, h) == session_for(old(self)@, h),
    {
        let (metas, playlist_name): (Vec<TrackMeta>, Option<String>) = match load {
            LoadResult::Single(t) => {
                let mut v: Vec<TrackMeta> = Vec::new();
                v.push(t);
                (v, None)
            },
            LoadResult::Search(mut ts) => {
                if ts.len() > 0 {
                    let first = ts.remove(0);
                    let mut v: Vec<TrackMeta> = Vec::new();
                    v.push(first);
                    (v, None)
                } else {
                    (Vec::new(), None)
                }
            },
            LoadResult::Playlist(name, ts) => (ts, Some(name)),
            LoadResult::Empty => (Vec::new(), None),
        };
        let ghost incoming = metas@;

        let (current_count, max) = match self.get(g) {
            Some(s) => {
                if !matches!(s.state, crate::session::SessionState::Active) {
                    return Err(BotError::NoActiveSession);
                }
                (s.queue.count(), s.queue.max_len())
            },
            None => {
                return Err(BotError::NoActiveSession);
            },
        };

        if metas.len() == 0 {
            return Ok(PlayOutcome::NoMatches);
        }
        if current_count >= max {
            return Err(BotError::QueueCapacityExceeded(max as u32));
        }

        let mut metas = metas;
        let mut tracks: Vec<QueuedTrack> = Vec::new();
        let mut i: usize = 0;
        let n = metas.len();
        while i < n
            invariant
                n == incoming.len(),
                0 <= i <= n,
                metas@ =~= incoming.skip(i as int),
                tracks@ =~= spec_attach_requester(incoming.take(i as int), requester_id),
            decreases n - i,
        {
            let t = metas.remove(0);
            assert(t == incoming[i as int]);
            tracks.push(QueuedTrack { track: t, requester_id });
            assert(tracks@ =~= spec_attach_requester(incoming.take(i as int + 1), requester_id))
                by {
                assert(incoming.take(i as int + 1).map_values(
                    |m: TrackMeta| QueuedTrack { track: m, requester_id },
                ) =~= incoming.take(i as int).map_values(
                    |m: TrackMeta| QueuedTrack { track: m, requester_id },
                ).push(QueuedTrack { track: incoming[i as int], requester_id }));
            }
            assert(metas@ =~= incoming.skip(i as int + 1));
            i = i + 1;
        }

        let ghost attached = tracks@;
        let result = self.queue_append(g, tracks);
        match result {
            Ok(a) => {
                proof {
                    assert(attached.len() == incoming.len());
                }
                Ok(
                    PlayOutcome::Queued {
                        admitted: a.admitted,
                        rejected: a.rejected,
                        playlist_name,
                        start_playback: !node_playing,
                    },
                )
            },
            Err(e) => Err(e),
        }
    }
}

} // verus!
