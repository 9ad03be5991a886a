//! The per-guild playback session and its registry: the session lifecycle
//! (absent, connecting, active, disconnecting), the guard that lets exactly
//! one trigger tear a session down, and the queue operations commands reach a
//! session through.
//!
//! The registry is the one coordinator owning per-guild state; the embedding
//! program serializes access to it per guild and performs the voice and
//! audio-node calls that the returned outcomes ask for.

use vstd::prelude::*;

use crate::errors::BotError;
use crate::queue::{AppendResult, Queue, QueuedTrack, TrackMeta, spec_admitted};

verus! {

/// Where a session stands in its life.  An absent session is simply not in
/// the registry.
#[derive(Clone, Copy, PartialEq, Eq, Structural, Debug)]
pub enum SessionState {
    /// A join was requested; the voice handshake and player creation are in
    /// flight.  Holding the slot keeps a second join from racing the first.
    Connecting,
    /// The voice connection and the audio-node player exist; commands apply.
    Active,
    /// A teardown has begun; every further trigger must no-op.
    Disconnecting,
}

/// One guild's live playback context.
#[derive(Debug)]
pub struct PlaybackSession {
    pub guild_id: u64,
    /// The text channel the session was created from: the announcement
    /// fallback when the guild configures none.
    pub text_channel_id: u64,
    /// The voice channel the session is (or is being) connected to.
    pub voice_channel_id: u64,
    pub state: SessionState,
    pub queue: Queue,
    /// Mirror of the audio node's reported now-playing track; the node stays
    /// authoritative.
    pub current_track: Option<TrackMeta>,
    /// The volume last applied to the node's player.
    pub volume: u16,
}

impl PlaybackSession {
    pub open spec fn wf(&self) -> bool {
        self.queue.wf()
    }
}

/// What a join request decided.
#[derive(Debug)]
pub enum JoinOutcome {
    /// A session already exists; nothing to connect.
    AlreadyPresent,
    /// No session existed: one is now being connected to this voice channel.
    /// The caller performs the handshake and reports back through
    /// `complete_join` or `abort_join`.
    Connect { voice_channel: u64 },
}

/// The two teardown steps, in the order they must run.
#[derive(Clone, Copy, PartialEq, Eq, Structural, Debug)]
pub enum TeardownStep {
    /// Instruct the audio node to delete the guild's player.
    DeletePlayer,
    /// Release the voice connection.
    ReleaseVoice,
}

/// No two sessions in `s` belong to the same guild.
pub open spec fn unique_sessions(s: Seq<PlaybackSession>) -> bool {
    forall|i: int, j: int|
        0 <= i < j < s.len() ==> #[trigger] s[i].guild_id != #[trigger] s[j].guild_id
}

/// The session of guild `g` among `s`, if any: the first match, which under
/// `unique_sessions` is the only one.
pub open spec fn session_for(s: Seq<PlaybackSession>, g: u64) -> Option<PlaybackSession>
    decreases s.len(),
{
    if s.len() == 0 {
        None
    } else if s[0].guild_id == g {
        Some(s[0])
    } else {
        session_for(s.drop_first(), g)
    }
}

/// A teardown trigger fires only on a guild whose session is active.
pub open spec fn teardown_fires(s: Seq<PlaybackSession>, g: u64) -> bool {
    session_for(s, g) matches Some(x) && x.state is Active
}

/// `session_for` finds nothing exactly when no session carries the guild id.
pub proof fn lemma_session_for_absent(s: Seq<PlaybackSession>, g: u64)
    ensures
        (session_for(s, g) is None) <==> (forall|j: int|
            0 <= j < s.len() ==> #[trigger] s[j].guild_id != g),
    decreases s.len(),
{
    if s.len() > 0 {
        lemma_session_for_absent(s.drop_first(), g);
        if session_for(s, g) is None {
            assert forall|j: int| 0 <= j < s.len() implies #[trigger] s[j].guild_id != g by {
                if j > 0 {
                    assert(s.drop_first()[j - 1] == s[j]);
                }
            }
        } else {
            if s[0].guild_id != g {
                let rest = s.drop_first();
                let w = choose|j: int| 0 <= j < rest.len() && #[trigger] rest[j].guild_id == g;
                assert(s[w + 1].guild_id == g);
            }
        }
    }
}

/// Appending a session only adds its own guild's entry.
pub proof fn lemma_session_for_push(s: Seq<PlaybackSession>, c: PlaybackSession, g: u64)
    ensures
        session_for(s.push(c), g) == (if session_for(s, g) is Some {
            session_for(s, g)
        } else if c.guild_id == g {
            Some(c)
        } else {
            None
        }),
    decreases s.len(),
{
    if s.len() == 0 {
        assert(s.push(c)[0] == c);
        assert(s.push(c).drop_first() =~= Seq::<PlaybackSession>::empty());
        assert(session_for(Seq::<PlaybackSession>::empty(), g) is None);
    } else {
        assert(s.push(c)[0] == s[0]);
        assert(s.push(c).drop_first() =~= s.drop_first().push(c));
        lemma_session_for_push(s.drop_first(), c, g);
        if s[0].guild_id != g {
            assert(session_for(s, g) == session_for(s.drop_first(), g));
        }
    }
}

/// Removing the session at `i` erases exactly that session's guild.
pub proof fn lemma_session_for_remove(s: Seq<PlaybackSession>, i: int, g: u64)
    requires
        unique_sessions(s),
        0 <= i < s.len(),
    ensures
        session_for(s.remove(i), g) == (if s[i].guild_id == g {
            None
        } else {
            session_for(s, g)
        }),
    decreases s.len(),
{
    if i == 0 {
        assert(s.remove(0) =~= s.drop_first());
        if s[0].guild_id == g {
            let rest = s.drop_first();
            assert forall|j: int| 0 <= j < rest.len() implies #[trigger] rest[j].guild_id != g by {
                assert(rest[j] == s[j + 1]);
            }
            lemma_session_for_absent(rest, g);
        }
    } else {
        assert(s.remove(i)[0] == s[0]);
        if s[0].guild_id != g {
            let rest = s.drop_first();
            assert(unique_sessions(rest)) by {
                assert forall|a: int, b: int|
                    0 <= a < b < rest.len() implies #[trigger] rest[a].guild_id
                    != #[trigger] rest[b].guild_id by {
                    assert(rest[a] == s[a + 1]);
                    assert(rest[b] == s[b + 1]);
                }
            }
            assert(s.remove(i).drop_first() =~= rest.remove(i - 1));
            assert(rest[i - 1] == s[i]);
            lemma_session_for_remove(rest, i - 1, g);
        }
    }
}

/// Removal keeps guild ids unique.
pub proof fn lemma_unique_sessions_remove(s: Seq<PlaybackSession>, i: int)
    requires
        unique_sessions(s),
        0 <= i < s.len(),
    ensures
        unique_sessions(s.remove(i)),
{
    let r = s.remove(i);
    assert forall|a: int, b: int| 0 <= a < b < r.len() implies #[trigger] r[a].guild_id
        != #[trigger] r[b].guild_id by {
        let a0 = if a < i {
            a
        } else {
            a + 1
        };
        let b0 = if b < i {
            b
        } else {
            b + 1
        };
        assert(r[a] == s[a0]);
        assert(r[b] == s[b0]);
    }
}

/// Appending a session for a guild that has none keeps guild ids unique.
pub proof fn lemma_unique_sessions_push(s: Seq<PlaybackSession>, c: PlaybackSession)
    requires
        unique_sessions(s),
        forall|j: int| 0 <= j < s.len() ==> #[trigger] s[j].guild_id != c.guild_id,
    ensures
        unique_sessions(s.push(c)),
{
    let r = s.push(c);
    assert forall|a: int, b: int| 0 <= a < b < r.len() implies #[trigger] r[a].guild_id
        != #[trigger] r[b].guild_id by {
        assert(r[a] == s[a]);
        if b < s.len() {
            assert(r[b] == s[b]);
        } else {
            assert(r[b] == c);
        }
    }
}

/// The process-wide map of guilds to their playback sessions: at most one
/// session per guild at any time.
#[derive(Debug)]
pub struct SessionRegistry {
    sessions: Vec<PlaybackSession>,
}

impl SessionRegistry {
    /// The sessions currently alive.
    pub closed spec fn view(&self) -> Seq<PlaybackSession> {
        self.sessions@
    }

    /// One session per guild, each well-formed.
    pub open spec fn wf(&self) -> bool {
        &&& unique_sessions(self@)
        &&& forall|i: int| 0 <= i < self@.len() ==> (#[trigger] self@[i]).wf()
    }

    /// An empty registry.
    pub fn new() -> (r: SessionRegistry)
        ensures
            r.wf(),
            r@ =~= Seq::<PlaybackSession>::empty(),
    {
        SessionRegistry { sessions: Vec::new() }
    }

    /// The position of guild `g`'s session, tied to what `session_for` sees.
    fn find(&self, g: u64) -> (r: Option<usize>)
        ensures
            match r {
                Some(i) => i < self@.len() && self@[i as int].guild_id == g && session_for(
                    self@,
                    g,
                ) == Some(self@[i as int]),
                None => session_for(self@, g) is None,
            },
    {
        let n = self.sessions.len();
        let mut i: usize = 0;
        proof {
            assert(self@.skip(0) =~= self@);
        }
        while i < n
            invariant
                n == self@.len(),
                0 <= i <= n,
                session_for(self@, g) == session_for(self@.skip(i as int), g),
            decreases n - i,
        {
            if self.sessions[i].guild_id == g {
                assert(self@.skip(i as int)[0] == self@[i as int]);
                return Some(i);
            }
            assert(self@.skip(i as int).drop_first() =~= self@.skip(i as int + 1));
            assert(self@.skip(i as int)[0] == self@[i as int]);
            i = i + 1;
        }
        assert(self@.skip(n as int) =~= Seq::<PlaybackSession>::empty());
        None
    }

    /// Read access to guild `g`'s session.
    pub fn get(&self, g: u64) -> (r: Option<&PlaybackSession>)
        ensures
            match r {
                Some(s) => session_for(self@, g) == Some(*s),
                None => session_for(self@, g) is None,
            },
    {
        match self.find(g) {
            Some(i) => Some(&self.sessions[i]),
            None => None,
        }
    }

    /// Removes and returns the session at `i`, leaving its guild without one.
    fn take_at(&mut self, i: usize) -> (c: PlaybackSession)
        requires
            old(self).wf(),
            i < old(self)@.len(),
        ensures
            final(self).wf(),
            c == old(self)@[i as int],
            c.wf(),
            session_for(final(self)@, c.guild_id) is None,
            forall|h: u64|
                h != c.guild_id ==> session_for(final(self)@, h) == session_for(old(self)@, h),
    {
        proof {
            lemma_unique_sessions_remove(self@, i as int);
            assert forall|h: u64|
                session_for(self@.remove(i as int), h) == (if self@[i as int].guild_id == h {
                    None
                } else {
                    session_for(self@, h)
                }) by {
                lemma_session_for_remove(self@, i as int, h);
            }
        }
        self.sessions.remove(i)
    }

    /// Inserts a session for a guild that currently has none.
    fn put_back(&mut self, c: PlaybackSession)
        requires
            old(self).wf(),
            c.wf(),
            session_for(old(self)@, c.guild_id) is None,
        ensures
            final(self).wf(),
            session_for(final(self)@, c.guild_id) == Some(c),
            forall|h: u64|
                h != c.guild_id ==> session_for(final(self)@, h) == session_for(old(self)@, h),
    {
        proof {
            lemma_session_for_absent(self@, c.guild_id);
            lemma_unique_sessions_push(self@, c);
            assert forall|h: u64|
                session_for(self@.push(c), h) == (if session_for(self@, h) is Some {
                    session_for(self@, h)
                } else if c.guild_id == h {
                    Some(c)
                } else {
                    None
                }) by {
                lemma_session_for_push(self@, c, h);
            }
        }
        self.sessions.push(c);
    }

    /// A join request for guild `g`, issued from text channel
    /// `text_channel_id`.  When a session already exists nothing changes.
    /// Otherwise the target voice channel is the explicitly requested one, or
    /// the channel the requesting user is in; with neither, the request fails
    /// with `NotInVoice` and nothing changes.  On success a `Connecting`
    /// session with an empty queue bounded by `max_queue_length` holds the
    /// guild's slot while the caller performs the handshake.
    pub fn request_join(
        &mut self,
        g: u64,
        text_channel_id: u64,
        explicit_channel: Option<u64>,
        user_channel: Option<u64>,
        max_queue_length: usize,
    ) -> (r: Result<JoinOutcome, BotError>)
        requires
            old(self).wf(),
            max_queue_length >= 1,
        ensures
            final(self).wf(),
            session_for(old(self)@, g) is Some ==> (r matches Ok(o) && o is AlreadyPresent
                && final(self)@ == old(self)@),
            (session_for(old(self)@, g) is None && (join_channel(explicit_channel, user_channel)
                matches Some(c))) ==> (join_channel(explicit_channel, user_channel) matches Some(c)
                && (r matches Ok(o) && (o matches JoinOutcome::Connect { voice_channel }
                && voice_channel == c) && (session_for(final(self)@, g) matches Some(s) && s.state
                is Connecting && s.guild_id == g && s.text_channel_id == text_channel_id
                && s.voice_channel_id == c && s.queue@.len() == 0 && s.queue.spec_max()
                == max_queue_length && s.current_track is None))),
            session_for(old(self)@, g) is None && join_channel(explicit_channel, user_channel)
                is None ==> (r matches Err(e) && e == BotError::NotInVoice && final(self)@ == old(
                self,
            )@),
            forall|h: u64| h != g ==> session_for(final(self)@, h) == session_for(old(self)@, h),
    {
        match self.find(g) {
            Some(_) => Ok(JoinOutcome::AlreadyPresent),
            None => {
                let target = match explicit_channel {
                    Some(c) => Some(c),
                    None => user_channel,
                };
                match target {
                    None => Err(BotError::NotInVoice),
                    Some(c) => {
                        let s = PlaybackSession {
                            guild_id: g,
                            text_channel_id,
                            voice_channel_id: c,
                            state: SessionState::Connecting,
                            queue: Queue::new(max_queue_length),
                            current_track: None,
                            volume: 100,
                        };
                        self.put_back(s);
                        Ok(JoinOutcome::Connect { voice_channel: c })
                    },
                }
            },
        }
    }

    /// The voice handshake and player creation succeeded: the `Connecting`
    /// session becomes `Active` and records `volume`, the guild's configured
    /// default, which the caller now applies to the node's player.  Returns
    /// true exactly when that transition happened — the one moment an idle
    /// monitor must be started.  Any other state is a lost race: nothing
    /// changes.
    pub fn complete_join(&mut self, g: u64, volume: u16) -> (activated: bool)
        requires
            old(self).wf(),
        ensures
            final(self).wf(),
            activated == (session_for(old(self)@, g) matches Some(s) && s.state is Connecting),
            activated ==> (session_for(old(self)@, g) matches Some(s) && session_for(
                final(self)@,
                g,
            ) == Some(activated_session(s, volume))),
            !activated ==> final(self)@ == old(self)@,
            forall|h: u64| h != g ==> session_for(final(self)@, h) == session_for(old(self)@, h),
    {
        match self.find(g) {
            Some(i) => {
                if matches!(self.sessions[i].state, SessionState::Connecting) {
                    let mut s = self.take_at(i);
                    s.state = SessionState::Active;
                    s.volume = volume;
                    self.put_back(s);
                    true
                } else {
                    false
                }
            },
            None => false,
        }
    }

    /// The handshake or the player creation failed: the `Connecting` session
    /// is dropped so no partial session is retained.  Returns true when a
    /// session was dropped; the caller releases the voice connection if its
    /// handshake had succeeded.
    pub fn abort_join(&mut self, g: u64) -> (dropped: bool)
        requires
            old(self).wf(),
        ensures
            final(self).wf(),
            dropped == (session_for(old(self)@, g) matches Some(s) && s.state is Connecting),
            dropped ==> session_for(final(self)@, g) is None,
            !dropped ==> final(self)@ == old(self)@,
            forall|h: u64| h != g ==> session_for(final(self)@, h) == session_for(old(self)@, h),
    {
        match self.find(g) {
            Some(i) => {
                if matches!(self.sessions[i].state, SessionState::Connecting) {
                    let _ = self.take_at(i);
                    true
                } else {
                    false
                }
            },
            None => false,
        }
    }

    /// One trigger — explicit leave, idle-timeout confirmation, or a
    /// node-initiated close — asks to tear guild `g`'s session down.  Exactly
    /// the first such trigger receives the teardown steps, in order: delete
    /// the node's player, then release the voice connection.  Every later
    /// trigger (the session is already `Disconnecting` or gone) receives
    /// `None` and must no-op.
    pub fn begin_teardown(&mut self, g: u64) -> (r: Option<Vec<TeardownStep>>)
        requires
            old(self).wf(),
        ensures
            final(self).wf(),
            (r is Some) == teardown_fires(old(self)@, g),
            r matches Some(steps) ==> steps@ =~= seq![
                TeardownStep::DeletePlayer,
                TeardownStep::ReleaseVoice,
            ],
            !teardown_fires(final(self)@, g),
            teardown_fires(old(self)@, g) ==> (session_for(old(self)@, g) matches Some(s)
                && session_for(final(self)@, g) == Some(disconnecting_session(s))),
            !teardown_fires(old(self)@, g) ==> final(self)@ == old(self)@,
            forall|h: u64| h != g ==> session_for(final(self)@, h) == session_for(old(self)@, h),
    {
        match self.find(g) {
            Some(i) => {
                if matches!(self.sessions[i].state, SessionState::Active) {
                    let mut s = self.take_at(i);
                    s.state = SessionState::Disconnecting;
                    self.put_back(s);
                    let mut steps: Vec<TeardownStep> = Vec::new();
                    steps.push(TeardownStep::DeletePlayer);
                    steps.push(TeardownStep::ReleaseVoice);
                    Some(steps)
                } else {
                    None
                }
            },
            None => None,
        }
    }

    /// The teardown steps have been performed (each best-effort): the
    /// `Disconnecting` session leaves the registry.  A session in any other
    /// state is untouched.
    pub fn finish_teardown(&mut self, g: u64)
        requires
            old(self).wf(),
        ensures
            final(self).wf(),
            (session_for(old(self)@, g) matches Some(s) && s.state is Disconnecting) ==> (
            session_for(final(self)@, g) is None),
            !(session_for(old(self)@, g) matches Some(s) && s.state is Disconnecting)
                ==> final(self)@ == old(self)@,
            forall|h: u64| h != g ==> session_for(final(self)@, h) == session_for(old(self)@, h),
    {
        match self.find(g) {
            Some(i) => {
                if matches!(self.sessions[i].state, SessionState::Disconnecting) {
                    let _ = self.take_at(i);
                }
            },
            None => {},
        }
    }

    /// Appends `tracks` to guild `g`'s queue under the queue's own admission
    /// rule.  Fails with `NoActiveSession`, changing nothing, when the guild
    /// has no active session (absent, still connecting, or being torn down).
    pub fn queue_append(&mut self, g: u64, tracks: Vec<QueuedTrack>) -> (r: Result<
        AppendResult,
        BotError,
    >)
        requires
            old(self).wf(),
        ensures
            final(self).wf(),
            !active_session(old(self)@, g) ==> (r matches Err(e) && e == BotError::NoActiveSession
                && final(self)@ == old(self)@),
            active_session(old(self)@, g) ==> (session_for(old(self)@, g) matches Some(s) && {
                let admitted = spec_admitted(s.queue@.len(), s.queue.spec_max(), tracks@.len());
                &&& r matches Ok(a)
                &&& a.admitted == admitted
                &&& a.admitted + a.rejected == tracks@.len()
                &&& session_for(final(self)@, g) matches Some(t)
                &&& t.queue@ =~= s.queue@ + tracks@.take(admitted as int)
                &&& same_session_frame(s, t)
                &&& t.current_track == s.current_track
            }),
            forall|h: u64| h != g ==> session_for(final(self)@, h) == session_for(old(self)@, h),
    {
        match self.find(g) {
            Some(i) => {
                if matches!(self.sessions[i].state, SessionState::Active) {
                    let mut s = self.take_at(i);
                    let a = s.queue.append(tracks);
                    self.put_back(s);
                    Ok(a)
                } else {
                    Err(BotError::NoActiveSession)
                }
            },
            None => Err(BotError::NoActiveSession),
        }
    }

    /// Removes the track at `index` of guild `g`'s queue.  Fails with
    /// `NoActiveSession` when the guild has no active session, and with
    /// `IndexOutOfRange`, leaving the queue unchanged, when `index` is not
    /// below the queue's length.
    pub fn queue_remove_at(&mut self, g: u64, index: usize) -> (r: Result<QueuedTrack, BotError>)
        requires
            old(self).wf(),
        ensures
            final(self).wf(),
            !active_session(old(self)@, g) ==> (r matches Err(e) && e == BotError::NoActiveSession
                && final(self)@ == old(self)@),
            active_session(old(self)@, g) ==> (session_for(old(self)@, g) matches Some(s) && (
            if index < s.queue@.len() {
                r matches Ok(t) && t == s.queue@[index as int] && (session_for(final(self)@, g)
                    matches Some(t2) && t2.queue@ =~= s.queue@.remove(index as int)
                    && same_session_frame(s, t2) && t2.current_track == s.current_track)
            } else {
                r matches Err(e) && e == BotError::IndexOutOfRange && final(self)@ == old(self)@
            })),
            forall|h: u64| h != g ==> session_for(final(self)@, h) == session_for(old(self)@, h),
    {
        match self.find(g) {
            Some(i) => {
                if matches!(self.sessions[i].state, SessionState::Active) {
                    if index < self.sessions[i].queue.count() {
                        let mut s = self.take_at(i);
                        let r = s.queue.remove_at(index);
                        self.put_back(s);
                        r
                    } else {
                        Err(BotError::IndexOutOfRange)
                    }
                } else {
                    Err(BotError::NoActiveSession)
                }
            },
            None => Err(BotError::NoActiveSession),
        }
    }

    /// Empties guild `g`'s queue.  Fails with `NoActiveSession` when the
    /// guild has no active session.
    pub fn queue_clear(&mut self, g: u64) -> (r: Result<(), BotError>)
        requires
            old(self).wf(),
        ensures
            final(self).wf(),
            !active_session(old(self)@, g) ==> (r matches Err(e) && e == BotError::NoActiveSession
                && final(self)@ == old(self)@),
            active_session(old(self)@, g) ==> (session_for(old(self)@, g) matches Some(s) && (r
                is Ok && (session_for(final(self)@, g) matches Some(t) && t.queue@.len() == 0
                && same_session_frame(s, t) && t.current_track == s.current_track))),
            forall|h: u64| h != g ==> session_for(final(self)@, h) == session_for(old(self)@, h),
    {
        match self.find(g) {
            Some(i) => {
                if matches!(self.sessions[i].state, SessionState::Active) {
                    let mut s = self.take_at(i);
                    s.queue.clear();
                    self.put_back(s);
                    Ok(())
                } else {
                    Err(BotError::NoActiveSession)
                }
            },
            None => Err(BotError::NoActiveSession),
        }
    }

    /// Records what the audio node reported as now playing for guild `g` (a
    /// lifecycle event mirror; the node stays authoritative).  A guild
    /// without an active session ignores the report.
    pub fn note_now_playing(&mut self, g: u64, track: Option<TrackMeta>)
        requires
            old(self).wf(),
        ensures
            final(self).wf(),
            active_session(old(self)@, g) ==> (session_for(old(self)@, g) matches Some(s) && (
            session_for(final(self)@, g) matches Some(t) && t.current_track == track
                && t.queue@ =~= s.queue@ && same_session_frame(s, t))),
            !active_session(old(self)@, g) ==> final(self)@ == old(self)@,
            forall|h: u64| h != g ==> session_for(final(self)@, h) == session_for(old(self)@, h),
    {
        match self.find(g) {
            Some(i) => {
                if matches!(self.sessions[i].state, SessionState::Active) {
                    let mut s = self.take_at(i);
                    s.current_track = track;
                    self.put_back(s);
                }
            },
            None => {},
        }
    }
}

/// Whether `t` agrees with `s` in everything but its queue contents and
/// now-playing mirror: identity, channels, state, volume, and queue bound.
/// The frame every queue operation and mirror update must preserve.
pub open spec fn same_session_frame(s: PlaybackSession, t: PlaybackSession) -> bool {
    &&& t.guild_id == s.guild_id
    &&& t.text_channel_id == s.text_channel_id
    &&& t.voice_channel_id == s.voice_channel_id
    &&& t.state == s.state
    &&& t.volume == s.volume
    &&& t.queue.spec_max() == s.queue.spec_max()
}

/// Whether guild `g` currently has an *active* session (not connecting, not
/// being torn down).
pub open spec fn active_session(s: Seq<PlaybackSession>, g: u64) -> bool {
    session_for(s, g) matches Some(x) && x.state is Active
}

/// `s` as it stands after entering `Active` with `volume` applied.
pub open spec fn activated_session(s: PlaybackSession, volume: u16) -> PlaybackSession {
    PlaybackSession { state: SessionState::Active, volume, ..s }
}

/// `s` as it stands once a teardown has claimed it.
pub open spec fn disconnecting_session(s: PlaybackSession) -> PlaybackSession {
    PlaybackSession { state: SessionState::Disconnecting, ..s }
}

/// The voice channel a join connects to: the explicitly requested channel
/// when given, else the channel the requesting user is in.
pub open spec fn join_channel(explicit_channel: Option<u64>, user_channel: Option<u64>) -> Option<
    u64,
> {
    match explicit_channel {
        Some(c) => Some(c),
        None => user_channel,
    }
}

/// The teardown guard: whatever state one completed trigger left the session
/// in — `Disconnecting` while its steps run, or gone once they finish — no
/// further trigger fires on it.  Together with `begin_teardown`'s
/// postcondition (`r is Some` exactly when the session was active) this says:
/// of several racing triggers, exactly the first executes the teardown, and
/// the rest observe absence and no-op.
pub proof fn lemma_teardown_exactly_once(s: Seq<PlaybackSession>, g: u64)
    requires
        session_for(s, g) matches Some(x) ==> !(x.state is Active),
    ensures
        !teardown_fires(s, g),
{
}

} // verus!
