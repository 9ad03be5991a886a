//! Persisted record shapes beyond the guild configuration: user favorites and
//! guild playlists.  The records themselves are plain data; the persistence
//! layer around them lives in the embedding program.

use vstd::prelude::*;

verus! {

/// A track a user saved for later.
#[derive(Debug)]
pub struct UserFavorite {
    pub id: i64,
    pub user_id: i64,
    pub title: String,
    pub author: String,
    pub uri: String,
    pub artwork_url: Option<String>,
    pub created_at: String,
}

/// A named playlist owned by a guild.
#[derive(Debug)]
pub struct GuildPlaylist {
    pub id: i64,
    pub guild_id: i64,
    pub name: String,
    pub created_by: i64,
    pub created_at: String,
}

/// One entry of a guild playlist; `position` orders the entries.
#[derive(Debug)]
pub struct PlaylistTrack {
    pub id: i64,
    pub playlist_id: i64,
    pub title: String,
    pub author: String,
    pub uri: String,
    pub position: i32,
    pub added_by: i64,
    pub added_at: String,
}

/// The greatest `position` among `s`, or -1 when `s` is empty: the value a
/// newly added track's position follows.
pub open spec fn spec_max_position(s: Seq<PlaylistTrack>) -> int
    decreases s.len(),
{
    if s.len() == 0 {
        -1
    } else if spec_max_position(s.drop_last()) >= s.last().position {
        spec_max_position(s.drop_last())
    } else {
        s.last().position as int
    }
}

/// The position a track appended to playlist contents `tracks` receives: one
/// past the greatest present, 0 for an empty playlist.
pub fn next_position(tracks: &Vec<PlaylistTrack>) -> (r: i32)
    requires
        spec_max_position(tracks@) < i32::MAX,
    ensures
        r == spec_max_position(tracks@) + 1,
{
    let n = tracks.len();
    let mut best: i32 = -1;
    let mut i: usize = 0;
    proof {
        assert(tracks@.take(0) =~= Seq::<PlaylistTrack>::empty());
        lemma_max_position_prefix(tracks@, 0);
    }
    while i < n
        invariant
            n == tracks@.len(),
            0 <= i <= n,
            best == spec_max_position(tracks@.take(i as int)),
            spec_max_position(tracks@.take(i as int)) <= spec_max_position(tracks@),
        decreases n - i,
    {
        proof {
            assert(tracks@.take(i as int + 1).drop_last() =~= tracks@.take(i as int));
            assert(tracks@.take(i as int + 1).last() == tracks@[i as int]);
            lemma_max_position_prefix(tracks@, i as int + 1);
        }
        if tracks[i].position > best {
            best = tracks[i].position;
        }
        i = i + 1;
    }
    proof {
        assert(tracks@.take(n as int) =~= tracks@);
    }
    best + 1
}

/// A prefix never has a greater maximum position than the whole.
proof fn lemma_max_position_prefix(s: Seq<PlaylistTrack>, i: int)
    requires
        0 <= i <= s.len(),
    ensures
        spec_max_position(s.take(i)) <= spec_max_position(s),
    decreases s.len() - i,
{
    if i == s.len() {
        assert(s.take(i) =~= s);
    } else {
        assert(s.take(i + 1).drop_last() =~= s.take(i));
        lemma_max_position_prefix(s, i + 1);
    }
}

} // verus!
