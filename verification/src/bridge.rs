//! The WebSocket bridge behind the wire protocol: the shared registry of
//! subscribed clients (one watched guild per client, last subscription wins)
//! and the dispatch that turns a validated control request into the reply to
//! send and the directive to hand the audio node.  The bridge adds no
//! business logic of its own: playback changes go through the same session
//! operations chat commands use.

use vstd::prelude::*;

use crate::queue::{TrackMeta, track_meta_eq};
use crate::session::{SessionRegistry, active_session, session_for};
use crate::wire::{WsReply, WsRequest};

verus! {

/// One client's subscription: the single guild it watches.
#[derive(Clone, Copy, PartialEq, Eq, Structural, Debug)]
pub struct Subscription {
    pub client_id: u64,
    pub guild_id: u64,
}

/// No client appears twice in `s`.
pub open spec fn unique_clients(s: Seq<Subscription>) -> bool {
    forall|i: int, j: int|
        0 <= i < j < s.len() ==> #[trigger] s[i].client_id != #[trigger] s[j].client_id
}

/// The guild client `c` watches, if any.
pub open spec fn sub_for(s: Seq<Subscription>, c: u64) -> Option<u64>
    decreases s.len(),
{
    if s.len() == 0 {
        None
    } else if s[0].client_id == c {
        Some(s[0].guild_id)
    } else {
        sub_for(s.drop_first(), c)
    }
}

/// `sub_for` finds nothing exactly when no subscription carries the client.
pub proof fn lemma_sub_for_absent(s: Seq<Subscription>, c: u64)
    ensures
        (sub_for(s, c) is None) <==> (forall|j: int|
            0 <= j < s.len() ==> #[trigger] s[j].client_id != c),
    decreases s.len(),
{
    if s.len() > 0 {
        lemma_sub_for_absent(s.drop_first(), c);
        if sub_for(s, c) is None {
            assert forall|j: int| 0 <= j < s.len() implies #[trigger] s[j].client_id != c by {
                if j > 0 {
                    assert(s.drop_first()[j - 1] == s[j]);
                }
            }
        } else {
            if s[0].client_id != c {
                let rest = s.drop_first();
                let w = choose|j: int| 0 <= j < rest.len() && #[trigger] rest[j].client_id == c;
                assert(s[w + 1].client_id == c);
            }
        }
    }
}

/// Under unique clients, the subscription at any index is what `sub_for`
/// finds for its client.
pub proof fn lemma_sub_for_at(s: Seq<Subscription>, j: int)
    requires
        unique_clients(s),
        0 <= j < s.len(),
    ensures
        sub_for(s, s[j].client_id) == Some(s[j].guild_id),
    decreases s.len(),
{
    if j == 0 {
    } else {
        let rest = s.drop_first();
        assert(unique_clients(rest)) by {
            assert forall|a: int, b: int|
                0 <= a < b < rest.len() implies #[trigger] rest[a].client_id
                != #[trigger] rest[b].client_id by {
                assert(rest[a] == s[a + 1]);
                assert(rest[b] == s[b + 1]);
            }
        }
        assert(rest[j - 1] == s[j]);
        lemma_sub_for_at(rest, j - 1);
    }
}

/// Appending a subscription only adds its own client's entry.
pub proof fn lemma_sub_for_push(s: Seq<Subscription>, n: Subscription, c: u64)
    ensures
        sub_for(s.push(n), c) == (if sub_for(s, c) is Some {
            sub_for(s, c)
        } else if n.client_id == c {
            Some(n.guild_id)
        } else {
            None
        }),
    decreases s.len(),
{
    if s.len() == 0 {
        assert(s.push(n)[0] == n);
        assert(s.push(n).drop_first() =~= Seq::<Subscription>::empty());
        assert(sub_for(Seq::<Subscription>::empty(), c) is None);
    } else {
        assert(s.push(n)[0] == s[0]);
        assert(s.push(n).drop_first() =~= s.drop_first().push(n));
        lemma_sub_for_push(s.drop_first(), n, c);
    }
}

/// Removing the subscription at `i` erases exactly that client's entry.
pub proof fn lemma_sub_for_remove(s: Seq<Subscription>, i: int, c: u64)
    requires
        unique_clients(s),
        0 <= i < s.len(),
    ensures
        sub_for(s.remove(i), c) == (if s[i].client_id == c {
            None
        } else {
            sub_for(s, c)
        }),
    decreases s.len(),
{
    if i == 0 {
        assert(s.remove(0) =~= s.drop_first());
        if s[0].client_id == c {
            let rest = s.drop_first();
            assert forall|j: int| 0 <= j < rest.len() implies #[trigger] rest[j].client_id != c by {
                assert(rest[j] == s[j + 1]);
            }
            lemma_sub_for_absent(rest, c);
        }
    } else {
        assert(s.remove(i)[0] == s[0]);
        if s[0].client_id != c {
            let rest = s.drop_first();
            assert(unique_clients(rest)) by {
                assert forall|a: int, b: int|
                    0 <= a < b < rest.len() implies #[trigger] rest[a].client_id
                    != #[trigger] rest[b].client_id by {
                    assert(rest[a] == s[a + 1]);
                    assert(rest[b] == s[b + 1]);
                }
            }
            assert(s.remove(i).drop_first() =~= rest.remove(i - 1));
            assert(rest[i - 1] == s[i]);
            lemma_sub_for_remove(rest, i - 1, c);
        }
    }
}

/// Removal keeps clients unique.
pub proof fn lemma_unique_clients_remove(s: Seq<Subscription>, i: int)
    requires
        unique_clients(s),
        0 <= i < s.len(),
    ensures
        unique_clients(s.remove(i)),
{
    let r = s.remove(i);
    assert forall|a: int, b: int| 0 <= a < b < r.len() implies #[trigger] r[a].client_id
        != #[trigger] r[b].client_id by {
        let a0 = if a < i {
            a
        } else {
            a + 1
        };
        let b0 = if b < i {
            b
        } else {
            b + 1
        };
        assert(r[a] == s[a0]);
        assert(r[b] == s[b0]);
    }
}

/// Appending a subscription for a client that has none keeps clients unique.
pub proof fn lemma_unique_clients_push(s: Seq<Subscription>, n: Subscription)
    requires
        unique_clients(s),
        forall|j: int| 0 <= j < s.len() ==> #[trigger] s[j].client_id != n.client_id,
    ensures
        unique_clients(s.push(n)),
{
    let r = s.push(n);
    assert forall|a: int, b: int| 0 <= a < b < r.len() implies #[trigger] r[a].client_id
        != #[trigger] r[b].client_id by {
        assert(r[a] == s[a]);
        if b < s.len() {
            assert(r[b] == s[b]);
        } else {
            assert(r[b] == n);
        }
    }
}

/// The shared registry of subscribed clients.  Every insert, removal and
/// broadcast lookup goes through it; the embedding program guards it with
/// mutual exclusion across its connection tasks.
#[derive(Debug)]
pub struct ClientRegistry {
    subs: Vec<Subscription>,
}

impl ClientRegistry {
    /// The current subscriptions.
    pub closed spec fn view(&self) -> Seq<Subscription> {
        self.subs@
    }

    /// Each client watches at most one guild.
    pub open spec fn wf(&self) -> bool {
        unique_clients(self@)
    }

    /// An empty registry.
    pub fn new() -> (r: ClientRegistry)
        ensures
            r.wf(),
            r@ =~= Seq::<Subscription>::empty(),
    {
        ClientRegistry { subs: Vec::new() }
    }

    /// The position of client `c`'s subscription.
    fn find(&self, c: u64) -> (r: Option<usize>)
        ensures
            match r {
                Some(i) => i < self@.len() && self@[i as int].client_id == c && sub_for(self@, c)
                    == Some(self@[i as int].guild_id),
                None => sub_for(self@, c) is None,
            },
    {
        let n = self.subs.len();
        let mut i: usize = 0;
        proof {
            assert(self@.skip(0) =~= self@);
        }
        while i < n
            invariant
                n == self@.len(),
                0 <= i <= n,
                sub_for(self@, c) == sub_for(self@.skip(i as int), c),
            decreases n - i,
        {
            if self.subs[i].client_id == c {
                assert(self@.skip(i as int)[0] == self@[i as int]);
                return Some(i);
            }
            assert(self@.skip(i as int).drop_first() =~= self@.skip(i as int + 1));
            assert(self@.skip(i as int)[0] == self@[i as int]);
            i = i + 1;
        }
        assert(self@.skip(n as int) =~= Seq::<Subscription>::empty());
        None
    }

    /// Subscribes client `c` to guild `g`'s event stream.  A client watches
    /// one guild per connection: the last subscription wins.  Other clients'
    /// subscriptions are untouched.
    pub fn subscribe(&mut self, c: u64, g: u64)
        requires
            old(self).wf(),
        ensures
            final(self).wf(),
            sub_for(final(self)@, c) == Some(g),
            forall|d: u64| d != c ==> sub_for(final(self)@, d) == sub_for(old(self)@, d),
    {
        match self.find(c) {
            Some(i) => {
                proof {
                    lemma_unique_clients_remove(self@, i as int);
                    assert forall|d: u64|
                        sub_for(self@.remove(i as int), d) == (if self@[i as int].client_id == d {
                            None
                        } else {
                            sub_for(self@, d)
                        }) by {
                        lemma_sub_for_remove(self@, i as int, d);
                    }
                }
                self.subs.remove(i);
            },
            None => {},
        }
        let n = Subscription { client_id: c, guild_id: g };
        proof {
            lemma_sub_for_absent(self@, c);
            lemma_unique_clients_push(self@, n);
            assert forall|d: u64|
                sub_for(self@.push(n), d) == (if sub_for(self@, d) is Some {
                    sub_for(self@, d)
                } else if n.client_id == d {
                    Some(n.guild_id)
                } else {
                    None
                }) by {
                lemma_sub_for_push(self@, n, d);
            }
        }
        self.subs.push(n);
    }

    /// Drops whatever client `c` was watching (a closed connection).  Other
    /// clients' subscriptions are untouched.
    pub fn remove_client(&mut self, c: u64)
        requires
            old(self).wf(),
        ensures
            final(self).wf(),
            sub_for(final(self)@, c) is None,
            forall|d: u64| d != c ==> sub_for(final(self)@, d) == sub_for(old(self)@, d),
    {
        match self.find(c) {
            Some(i) => {
                proof {
                    lemma_unique_clients_remove(self@, i as int);
                    assert forall|d: u64|
                        sub_for(self@.remove(i as int), d) == (if self@[i as int].client_id == d {
                            None
                        } else {
                            sub_for(self@, d)
                        }) by {
                        lemma_sub_for_remove(self@, i as int, d);
                    }
                }
                self.subs.remove(i);
            },
            None => {},
        }
    }

    /// The clients a broadcast for guild `g` goes to: exactly those
    /// subscribed to `g`, each once.
    pub fn recipients(&self, g: u64) -> (r: Vec<u64>)
        requires
            self.wf(),
        ensures
            forall|i: int|
                0 <= i < r@.len() ==> sub_for(self@, #[trigger] r@[i]) == Some(g),
            forall|j: int|
                0 <= j < self@.len() && (#[trigger] self@[j]).guild_id == g ==> r@.contains(
                    self@[j].client_id,
                ),
            forall|i: int, j: int| 0 <= i < j < r@.len() ==> r@[i] != r@[j],
    {
        let n = self.subs.len();
        let mut r: Vec<u64> = Vec::new();
        let mut i: usize = 0;
        while i < n
            invariant
                self.wf(),
                n == self@.len(),
                0 <= i <= n,
                forall|k: int|
                    0 <= k < r@.len() ==> sub_for(self@, #[trigger] r@[k]) == Some(g),
                forall|j: int|
                    0 <= j < i && (#[trigger] self@[j]).guild_id == g ==> r@.contains(
                        self@[j].client_id,
                    ),
                forall|k: int, l: int| 0 <= k < l < r@.len() ==> r@[k] != r@[l],
                forall|k: int|
                    0 <= k < r@.len() ==> exists|j: int|
                        0 <= j < i && (#[trigger] self@[j]).client_id == #[trigger] r@[k],
            decreases n - i,
        {
            if self.subs[i].guild_id == g {
                proof {
                    lemma_sub_for_at(self@, i as int);
                    let current = self@[i as int].client_id;
                    assert forall|k: int| 0 <= k < r@.len() implies r@[k] != current by {
                        let j = choose|j: int|
                            0 <= j < i && (#[trigger] self@[j]).client_id == #[trigger] r@[k];
                        assert(self@[j].client_id != self@[i as int].client_id);
                    }
                }
                let ghost r_old = r@;
                r.push(self.subs[i].client_id);
                proof {
                    assert forall|j: int|
                        0 <= j < i + 1 && (#[trigger] self@[j]).guild_id == g implies r@.contains(
                        self@[j].client_id,
                    ) by {
                        if j < i {
                            let k = choose|k: int|
                                0 <= k < r_old.len() && r_old[k] == self@[j].client_id;
                            assert(r@[k] == self@[j].client_id);
                        } else {
                            assert(r@[r@.len() - 1] == self@[i as int].client_id);
                        }
                    }
                }
            } else {
                proof {
                    assert forall|j: int|
                        0 <= j < i + 1 && (#[trigger] self@[j]).guild_id == g implies r@.contains(
                        self@[j].client_id,
                    ) by {
                        assert(j < i);
                    }
                }
            }
            i = i + 1;
        }
        r
    }
}

/// What the audio node must be told after a control request.
#[derive(Clone, Copy, PartialEq, Eq, Structural, Debug)]
pub enum PlayerDirective {
    /// Advance to the next queued track.
    Skip,
    /// Pause (`true`) or resume (`false`) playback.
    SetPause(bool),
    /// Stop the current track now.
    StopNow,
    /// Set the player volume (0 to 1000).
    SetVolume(u16),
    /// Jump to this position in the current track, in milliseconds.
    SeekTo(u64),
}

/// A dispatched control request: the reply to serialize back, and the
/// directive for the audio node — present only when the guild has an active
/// session; a control for a guild without one is answered but moves nothing.
#[derive(Debug)]
pub struct ControlOutcome {
    pub reply: WsReply,
    pub directive: Option<PlayerDirective>,
}

/// The directive a control request asks of the audio node, session permitting.
pub open spec fn spec_control_directive(req: crate::wire::ReqView) -> Option<PlayerDirective> {
    match req {
        crate::wire::ReqView::Skip { .. } => Some(PlayerDirective::Skip),
        crate::wire::ReqView::Pause { .. } => Some(PlayerDirective::SetPause(true)),
        crate::wire::ReqView::Resume { .. } => Some(PlayerDirective::SetPause(false)),
        crate::wire::ReqView::Stop { .. } => Some(PlayerDirective::StopNow),
        crate::wire::ReqView::Volume { volume, .. } => Some(PlayerDirective::SetVolume(volume)),
        crate::wire::ReqView::Seek { position_ms, .. } => Some(PlayerDirective::SeekTo(position_ms)),
        _ => None,
    }
}

/// Dispatches a validated control request against the session registry:
/// answers `ping` and `status` directly; for the playback controls (skip,
/// pause, resume, stop, volume, seek) returns the confirming reply and — only
/// when the guild has an active session — the matching node directive; for
/// `queue` returns the snapshot of the mirrored current track and pending
/// tracks (empty without a session); for `player_info` returns the node
/// report `node_paused` / `node_position_ms` the caller gathered, with
/// `connected` telling whether a session exists.  `subscribe` and `play` have
/// their own paths (`ClientRegistry::subscribe`, `SessionRegistry::admit_play`).
pub fn apply_control(
    reg: &SessionRegistry,
    req: &WsRequest,
    node_paused: bool,
    node_position_ms: u64,
) -> (o: ControlOutcome)
    requires
        !(req@ is Subscribe),
        !(req@ is Play),
    ensures
        o.directive == (if active_session(reg@, req_guild(req@)) {
            spec_control_directive(req@)
        } else {
            None::<PlayerDirective>
        }),
        req@ is Ping ==> o.reply is Pong,
        req@ is Status ==> (o.reply matches WsReply::Status { lavalink_connected } && lavalink_connected),
        req@ matches crate::wire::ReqView::Skip { guild_id } ==> (o.reply
            matches WsReply::SkipResponse { guild_id: g2 } && g2 == guild_id),
        req@ matches crate::wire::ReqView::Pause { guild_id } ==> (o.reply
            matches WsReply::PauseResponse { guild_id: g2 } && g2 == guild_id),
        req@ matches crate::wire::ReqView::Resume { guild_id } ==> (o.reply
            matches WsReply::ResumeResponse { guild_id: g2 } && g2 == guild_id),
        req@ matches crate::wire::ReqView::Stop { guild_id } ==> (o.reply
            matches WsReply::StopResponse { guild_id: g2 } && g2 == guild_id),
        req@ matches crate::wire::ReqView::Volume { guild_id, volume } ==> (o.reply
            matches WsReply::VolumeResponse { guild_id: g2, volume: v2 } && g2 == guild_id && v2
            == volume),
        req@ matches crate::wire::ReqView::Seek { guild_id, position_ms } ==> (o.reply
            matches WsReply::SeekResponse { guild_id: g2, position_ms: p2 } && g2 == guild_id && p2
            == position_ms),
        req@ matches crate::wire::ReqView::QueueInfo { guild_id } ==> (o.reply
            matches WsReply::QueueResponse { guild_id: g2, current_track, tracks } && g2 == guild_id
            && (match session_for(reg@, guild_id) {
            Some(s) => tracks@.len() == s.queue@.len() && (forall|k: int|
                0 <= k < tracks@.len() ==> track_meta_eq(
                    #[trigger] tracks@[k],
                    s.queue@[k].track,
                )) && (match current_track {
                Some(c) => s.current_track matches Some(sc) && track_meta_eq(c, sc),
                None => s.current_track is None,
            }),
            None => tracks@.len() == 0 && current_track is None,
        })),
        req@ matches crate::wire::ReqView::PlayerInfo { guild_id } ==> (o.reply
            matches WsReply::PlayerInfoResponse { guild_id: g2, connected, paused, position_ms }
            && g2 == guild_id && connected == (session_for(reg@, guild_id) is Some) && paused
            == node_paused && position_ms == node_position_ms),
{
    match req {
        WsRequest::Ping => ControlOutcome { reply: WsReply::Pong, directive: None },
        WsRequest::Status => ControlOutcome {
            reply: WsReply::Status { lavalink_connected: true },
            directive: None,
        },
        WsRequest::Skip { guild_id } => ControlOutcome {
            reply: WsReply::SkipResponse { guild_id: *guild_id },
            directive: directive_if_active(reg, *guild_id, PlayerDirective::Skip),
        },
        WsRequest::Pause { guild_id } => ControlOutcome {
            reply: WsReply::PauseResponse { guild_id: *guild_id },
            directive: directive_if_active(reg, *guild_id, PlayerDirective::SetPause(true)),
        },
        WsRequest::Resume { guild_id } => ControlOutcome {
            reply: WsReply::ResumeResponse { guild_id: *guild_id },
            directive: directive_if_active(reg, *guild_id, PlayerDirective::SetPause(false)),
        },
        WsRequest::Stop { guild_id } => ControlOutcome {
            reply: WsReply::StopResponse { guild_id: *guild_id },
            directive: directive_if_active(reg, *guild_id, PlayerDirective::StopNow),
        },
        WsRequest::Volume { guild_id, volume } => ControlOutcome {
            reply: WsReply::VolumeResponse { guild_id: *guild_id, volume: *volume },
            directive: directive_if_active(reg, *guild_id, PlayerDirective::SetVolume(*volume)),
        },
        WsRequest::Seek { guild_id, position_ms } => ControlOutcome {
            reply: WsReply::SeekResponse { guild_id: *guild_id, position_ms: *position_ms },
            directive: directive_if_active(reg, *guild_id, PlayerDirective::SeekTo(*position_ms)),
        },
        WsRequest::QueueInfo { guild_id } => {
            let (current_track, tracks) = queue_snapshot(reg, *guild_id);
            ControlOutcome {
                reply: WsReply::QueueResponse { guild_id: *guild_id, current_track, tracks },
                directive: None,
            }
        },
        WsRequest::PlayerInfo { guild_id } => ControlOutcome {
            reply: WsReply::PlayerInfoResponse {
                guild_id: *guild_id,
                connected: reg.get(*guild_id).is_some(),
                paused: node_paused,
                position_ms: node_position_ms,
            },
            directive: None,
        },
        _ => ControlOutcome { reply: WsReply::Pong, directive: None },
    }
}

/// The guild a control request addresses (0 for `ping` and `status`, which
/// address none and get no directive anyway).
pub open spec fn req_guild(req: crate::wire::ReqView) -> u64 {
    match req {
        crate::wire::ReqView::Ping => 0,
        crate::wire::ReqView::Status => 0,
        crate::wire::ReqView::Subscribe { guild_id } => guild_id,
        crate::wire::ReqView::Play { guild_id, .. } => guild_id,
        crate::wire::ReqView::Skip { guild_id } => guild_id,
        crate::wire::ReqView::Pause { guild_id } => guild_id,
        crate::wire::ReqView::Resume { guild_id } => guild_id,
        crate::wire::ReqView::Stop { guild_id } => guild_id,
        crate::wire::ReqView::Volume { guild_id, .. } => guild_id,
        crate::wire::ReqView::Seek { guild_id, .. } => guild_id,
        crate::wire::ReqView::QueueInfo { guild_id } => guild_id,
        crate::wire::ReqView::PlayerInfo { guild_id } => guild_id,
    }
}

/// `d` when guild `g` has an active session, `None` otherwise.
fn directive_if_active(reg: &SessionRegistry, g: u64, d: PlayerDirective) -> (r: Option<
    PlayerDirective,
>)
    ensures
        r == (if active_session(reg@, g) {
            Some(d)
        } else {
            None::<PlayerDirective>
        }),
{
    match reg.get(g) {
        Some(s) => {
            if matches!(s.state, crate::session::SessionState::Active) {
                Some(d)
            } else {
                None
            }
        },
        None => None,
    }
}

/// Copies guild `g`'s mirrored current track and queue contents out of the
/// registry (both empty without a session): every field of every track, in
/// queue order, and the current track's contents.
fn queue_snapshot(reg: &SessionRegistry, g: u64) -> (r: (Option<TrackMeta>, Vec<TrackMeta>))
    ensures
        match session_for(reg@, g) {
            Some(s) => r.1@.len() == s.queue@.len() && (forall|k: int|
                0 <= k < r.1@.len() ==> track_meta_eq(#[trigger] r.1@[k], s.queue@[k].track)) && (
            match r.0 {
                Some(c) => s.current_track matches Some(sc) && track_meta_eq(c, sc),
                None => s.current_track is None,
            }),
            None => r.1@.len() == 0 && r.0 is None,
        },
{
    match reg.get(g) {
        Some(s) => {
            let current = match &s.current_track {
                Some(t) => Some(t.duplicate()),
                None => None,
            };
            let n = s.queue.count();
            let mut tracks: Vec<TrackMeta> = Vec::new();
            let mut i: usize = 0;
            while i < n
                invariant
                    n == s.queue@.len(),
                    0 <= i <= n,
                    tracks@.len() == i,
                    forall|k: int|
                        0 <= k < i ==> track_meta_eq(#[trigger] tracks@[k], s.queue@[k].track),
                decreases n - i,
            {
                match s.queue.peek_at(i) {
                    Some(q) => tracks.push(q.track.duplicate()),
                    None => {
                        assert(false);
                    },
                }
                i = i + 1;
            }
            (current, tracks)
        },
        None => (None, Vec::new()),
    }
}

} // verus!
