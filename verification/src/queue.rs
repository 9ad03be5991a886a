//! The per-guild playback queue: an ordered, bounded sequence of pending
//! tracks.  Appends admit tracks in order up to the configured maximum and
//! report how many were rejected; removal by index shifts only the elements
//! behind the removed one.

use vstd::prelude::*;

use crate::errors::BotError;

verus! {

/// What the library keeps of a track handed back by the audio node's search:
/// the metadata its own logic reads.  The node itself remains the owner of the
/// playable resource, which it re-identifies through `uri`.
#[derive(Debug)]
pub struct TrackMeta {
    pub title: String,
    pub author: String,
    pub uri: Option<String>,
    pub artwork_url: Option<String>,
    /// Track length in milliseconds; 0 for a live stream.
    pub length_ms: u64,
}

/// Whether two track records carry the same contents: every field agrees
/// (string fields by their characters).
pub open spec fn track_meta_eq(a: TrackMeta, b: TrackMeta) -> bool {
    &&& a.title@ == b.title@
    &&& a.author@ == b.author@
    &&& crate::strutil::opt_str_view(a.uri) == crate::strutil::opt_str_view(b.uri)
    &&& crate::strutil::opt_str_view(a.artwork_url) == crate::strutil::opt_str_view(b.artwork_url)
    &&& a.length_ms == b.length_ms
}

impl TrackMeta {
    /// A contents-preserving copy.
    pub fn duplicate(&self) -> (r: TrackMeta)
        ensures
            track_meta_eq(r, *self),
    {
        TrackMeta {
            title: self.title.as_str().to_owned(),
            author: self.author.as_str().to_owned(),
            uri: match &self.uri {
                Some(u) => Some(u.as_str().to_owned()),
                None => None,
            },
            artwork_url: match &self.artwork_url {
                Some(u) => Some(u.as_str().to_owned()),
                None => None,
            },
            length_ms: self.length_ms,
        }
    }
}

/// A track admitted to a queue, together with the user who requested it.
#[derive(Debug)]
pub struct QueuedTrack {
    pub track: TrackMeta,
    pub requester_id: u64,
}

/// What an append did: how many incoming tracks entered the queue, in order,
/// and how many were turned away for capacity.
#[derive(Clone, Copy, PartialEq, Eq, Structural, Debug)]
pub struct AppendResult {
    pub admitted: usize,
    pub rejected: usize,
}

/// How many of `incoming` tracks a queue of length `len` bounded by `max`
/// admits: all of them, or exactly enough to reach the bound.
pub open spec fn spec_admitted(len: nat, max: nat, incoming: nat) -> nat {
    if len >= max {
        0
    } else if incoming <= max - len {
        incoming
    } else {
        (max - len) as nat
    }
}

/// The bounded FIFO queue of pending tracks for one guild.
#[derive(Debug)]
pub struct Queue {
    items: Vec<QueuedTrack>,
    max_len: usize,
}

impl Queue {
    /// The queue's contents, oldest first.
    pub closed spec fn view(&self) -> Seq<QueuedTrack> {
        self.items@
    }

    /// The configured maximum number of queued tracks.
    pub closed spec fn spec_max(&self) -> nat {
        self.max_len as nat
    }

    /// The queue never holds more than its bound, and the bound is positive.
    pub open spec fn wf(&self) -> bool {
        self@.len() <= self.spec_max() && self.spec_max() >= 1
    }

    /// An empty queue bounded by `max_len`.
    pub fn new(max_len: usize) -> (q: Queue)
        requires
            max_len >= 1,
        ensures
            q.wf(),
            q@ =~= Seq::<QueuedTrack>::empty(),
            q.spec_max() == max_len,
    {
        Queue { items: Vec::new(), max_len }
    }

    /// The configured bound, as the executable sees it.
    pub fn max_len(&self) -> (r: usize)
        ensures
            r == self.spec_max(),
    {
        self.max_len
    }

    /// How many tracks are pending.
    pub fn count(&self) -> (r: usize)
        ensures
            r == self@.len(),
    {
        self.items.len()
    }

    /// Appends `tracks` in order, admitting only as many as keep the queue at
    /// or under its bound, and reports the number rejected.  Excess tracks are
    /// never dropped silently: `admitted + rejected` always accounts for the
    /// whole batch.
    pub fn append(&mut self, tracks: Vec<QueuedTrack>) -> (r: AppendResult)
        requires
            old(self).wf(),
        ensures
            final(self).wf(),
            final(self).spec_max() == old(self).spec_max(),
            r.admitted == spec_admitted(old(self)@.len(), old(self).spec_max(), tracks@.len()),
            r.admitted + r.rejected == tracks@.len(),
            final(self)@ =~= old(self)@ + tracks@.take(r.admitted as int),
    {
        let ghost batch = tracks@;
        let mut tracks = tracks;
        let incoming: usize = tracks.len();
        let mut i: usize = 0;
        while i < incoming && self.items.len() < self.max_len
            invariant
                self.wf(),
                self.max_len == old(self).max_len,
                incoming == batch.len(),
                i <= incoming,
                i <= spec_admitted(old(self)@.len(), old(self).spec_max(), batch.len()),
                tracks@ =~= batch.skip(i as int),
                self.items@ =~= old(self)@ + batch.take(i as int),
                self.items@.len() < self.max_len || i == spec_admitted(
                    old(self)@.len(),
                    old(self).spec_max(),
                    batch.len(),
                ),
            decreases incoming - i,
        {
            let t = tracks.remove(0);
            assert(t == batch[i as int]);
            self.items.push(t);
            assert(self.items@ =~= old(self)@ + batch.take(i + 1));
            assert(tracks@ =~= batch.skip(i + 1));
            i = i + 1;
        }
        AppendResult { admitted: i, rejected: incoming - i }
    }

    /// Removes and returns the track at `index` (0-based); every later track
    /// moves forward by one place.  Fails with `IndexOutOfRange`, leaving the
    /// queue unchanged, exactly when `index` is not below the current length.
    pub fn remove_at(&mut self, index: usize) -> (r: Result<QueuedTrack, BotError>)
        requires
            old(self).wf(),
        ensures
            final(self).wf(),
            final(self).spec_max() == old(self).spec_max(),
            index < old(self)@.len() ==> (r matches Ok(t) && t == old(self)@[index as int]
                && final(self)@ =~= old(self)@.remove(index as int)),
            index >= old(self)@.len() ==> (r matches Err(e) && e == BotError::IndexOutOfRange
                && final(self)@ =~= old(self)@),
    {
        if index < self.items.len() {
            let t = self.items.remove(index);
            Ok(t)
        } else {
            Err(BotError::IndexOutOfRange)
        }
    }

    /// Empties the queue unconditionally; the bound is kept.
    pub fn clear(&mut self)
        requires
            old(self).wf(),
        ensures
            final(self).wf(),
            final(self).spec_max() == old(self).spec_max(),
            final(self)@ =~= Seq::<QueuedTrack>::empty(),
    {
        self.items.clear();
    }

    /// The track at `index` without removing it, or `None` past the end
    /// (an out-of-range probe is not an error).
    pub fn peek_at(&self, index: usize) -> (r: Option<&QueuedTrack>)
        ensures
            index < self@.len() ==> (r matches Some(t) && *t == self@[index as int]),
            index >= self@.len() ==> r is None,
    {
        if index < self.items.len() {
            Some(&self.items[index])
        } else {
            None
        }
    }
}

/// The queue contents after a whole series of appends, each admitting up to
/// the bound `max`, starting from contents `s`.
pub open spec fn spec_append_run(s: Seq<QueuedTrack>, max: nat, batches: Seq<Seq<QueuedTrack>>) -> Seq<
    QueuedTrack,
>
    decreases batches.len(),
{
    if batches.len() == 0 {
        s
    } else {
        let admitted = spec_admitted(s.len(), max, batches[0].len());
        spec_append_run(s + batches[0].take(admitted as int), max, batches.drop_first())
    }
}

/// However many batches are appended to a queue within its bound, the length
/// never exceeds the bound.  Together with `Queue::append`'s postcondition
/// (`admitted + rejected` covers the whole batch) this says: the count never
/// exceeds the maximum, and every excess track is reported, not silently
/// dropped.
pub proof fn lemma_append_run_bounded(s: Seq<QueuedTrack>, max: nat, batches: Seq<Seq<QueuedTrack>>)
    requires
        s.len() <= max,
    ensures
        spec_append_run(s, max, batches).len() <= max,
    decreases batches.len(),
{
    if batches.len() > 0 {
        let admitted = spec_admitted(s.len(), max, batches[0].len());
        lemma_append_run_bounded(s + batches[0].take(admitted as int), max, batches.drop_first());
    }
}

/// One `append` keeps the length at or under the bound and accounts for every
/// incoming track: `admitted` tracks enter (in order) and the rest are
/// reported rejected.
pub proof fn lemma_append_step_bounded(s: Seq<QueuedTrack>, max: nat, batch: Seq<QueuedTrack>)
    requires
        s.len() <= max,
    ensures
        (s + batch.take(spec_admitted(s.len(), max, batch.len()) as int)).len() <= max,
        spec_admitted(s.len(), max, batch.len()) + (batch.len() - spec_admitted(
            s.len(),
            max,
            batch.len(),
        )) == batch.len(),
{
}

/// What `clear` promises: the contents are gone, the bound is kept.
pub open spec fn spec_cleared(pre: Queue, post: Queue) -> bool {
    post@ =~= Seq::<QueuedTrack>::empty() && post.spec_max() == pre.spec_max()
}

/// Clearing is idempotent: a queue cleared once and a queue cleared twice
/// agree in everything `clear` is specified by — contents (none) and bound —
/// so `clear(); clear();` equals one `clear()`, and `count()` after either is
/// zero.
pub proof fn lemma_clear_idempotent(pre: Queue, once: Queue, twice: Queue)
    requires
        spec_cleared(pre, once),
        spec_cleared(once, twice),
    ensures
        twice@ =~= once@,
        twice.spec_max() == once.spec_max(),
        once@.len() == 0,
        twice@.len() == 0,
{
}

/// Removing the element at a valid `i` makes the old element at `i + 1` (when
/// there was one) the new element at `i`; when `i` was the last index, nothing
/// stands at `i` afterwards.  This is what `remove_at(i)` followed by
/// `peek_at(i)` observes.
pub proof fn lemma_remove_then_peek(s: Seq<QueuedTrack>, i: int)
    requires
        0 <= i < s.len(),
    ensures
        i + 1 < s.len() ==> s.remove(i)[i] == s[i + 1],
        i + 1 >= s.len() ==> s.remove(i).len() <= i,
{
}

} // verus!
