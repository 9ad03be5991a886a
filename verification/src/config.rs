//! Per-guild configuration: the record itself, its defaults and field ranges,
//! and an in-memory store holding exactly one record per guild, created
//! lazily with defaults on first access.
//!
//! The store models the persisted configuration table: what each operation
//! does to the one record of a guild, and that records of other guilds are
//! never touched.  Reading and writing the actual persistence layer is the
//! embedding program's task.

use vstd::prelude::*;

verus! {

/// The spec-level image of a `GuildConfig`: the same fields over mathematical
/// types.
pub ghost struct ConfigView {
    pub guild_id: int,
    pub dj_role_id: Option<int>,
    pub volume: int,
    pub auto_disconnect: bool,
    pub auto_disconnect_time: int,
    pub announce_songs: bool,
    pub announce_channel_id: Option<int>,
    pub max_queue_length: int,
    pub allow_filters: bool,
    pub allow_explicit: bool,
    pub created_at: Seq<char>,
    pub updated_at: Seq<char>,
}

/// One guild's settings.  `volume` is a percentage (0 to 200) applied when a
/// session starts; `auto_disconnect_time` is the idle debounce wait in
/// seconds; `max_queue_length` bounds the playback queue (1 to 500);
/// `announce_channel_id` overrides the session's fallback announcement
/// channel when set.
#[derive(Debug)]
pub struct GuildConfig {
    pub guild_id: i64,
    pub dj_role_id: Option<i64>,
    pub volume: i16,
    pub auto_disconnect: bool,
    pub auto_disconnect_time: i32,
    pub announce_songs: bool,
    pub announce_channel_id: Option<i64>,
    pub max_queue_length: i32,
    pub allow_filters: bool,
    pub allow_explicit: bool,
    pub created_at: String,
    pub updated_at: String,
}

impl View for GuildConfig {
    type V = ConfigView;

    open spec fn view(&self) -> ConfigView {
        ConfigView {
            guild_id: self.guild_id as int,
            dj_role_id: match self.dj_role_id {
                Some(x) => Some(x as int),
                None => None,
            },
            volume: self.volume as int,
            auto_disconnect: self.auto_disconnect,
            auto_disconnect_time: self.auto_disconnect_time as int,
            announce_songs: self.announce_songs,
            announce_channel_id: match self.announce_channel_id {
                Some(x) => Some(x as int),
                None => None,
            },
            max_queue_length: self.max_queue_length as int,
            allow_filters: self.allow_filters,
            allow_explicit: self.allow_explicit,
            created_at: self.created_at@,
            updated_at: self.updated_at@,
        }
    }
}

/// The defaults a guild receives on first access: volume 100, auto-disconnect
/// on after 300 s, announcements on in the fallback channel, queue bound 100,
/// filters and explicit tracks allowed.
pub open spec fn spec_fresh_config(guild_id: int, now: Seq<char>) -> ConfigView {
    ConfigView {
        guild_id,
        dj_role_id: None,
        volume: 100,
        auto_disconnect: true,
        auto_disconnect_time: 300,
        announce_songs: true,
        announce_channel_id: None,
        max_queue_length: 100,
        allow_filters: true,
        allow_explicit: true,
        created_at: now,
        updated_at: now,
    }
}

impl GuildConfig {
    /// The field ranges every stored record satisfies.
    pub open spec fn wf(&self) -> bool {
        &&& 0 <= self@.volume <= 200
        &&& 1 <= self@.max_queue_length <= 500
        &&& self@.auto_disconnect_time >= 0
    }

    /// A record with the default settings for `guild_id`, stamped `now`.
    pub fn fresh(guild_id: i64, now: &str) -> (r: GuildConfig)
        ensures
            r@ == spec_fresh_config(guild_id as int, now@),
            r.wf(),
    {
        GuildConfig {
            guild_id,
            dj_role_id: None,
            volume: 100,
            auto_disconnect: true,
            auto_disconnect_time: 300,
            announce_songs: true,
            announce_channel_id: None,
            max_queue_length: 100,
            allow_filters: true,
            allow_explicit: true,
            created_at: now.to_owned(),
            updated_at: now.to_owned(),
        }
    }

    /// A field-for-field copy (string fields share their contents).
    pub fn duplicate(&self) -> (r: GuildConfig)
        ensures
            r@ == self@,
    {
        GuildConfig {
            guild_id: self.guild_id,
            dj_role_id: self.dj_role_id,
            volume: self.volume,
            auto_disconnect: self.auto_disconnect,
            auto_disconnect_time: self.auto_disconnect_time,
            announce_songs: self.announce_songs,
            announce_channel_id: self.announce_channel_id,
            max_queue_length: self.max_queue_length,
            allow_filters: self.allow_filters,
            allow_explicit: self.allow_explicit,
            created_at: self.created_at.as_str().to_owned(),
            updated_at: self.updated_at.as_str().to_owned(),
        }
    }
}

impl Default for GuildConfig {
    /// The default record: guild 0, default settings, empty timestamps.
    fn default() -> (r: GuildConfig)
        ensures
            r@ == spec_fresh_config(0, Seq::<char>::empty()),
    {
        let r = GuildConfig::fresh(0, "");
        proof {
            reveal_strlit("");
            assert(""@ =~= Seq::<char>::empty());
        }
        r
    }
}

/// No two records in `s` belong to the same guild.
pub open spec fn unique_guilds(s: Seq<GuildConfig>) -> bool {
    forall|i: int, j: int|
        0 <= i < j < s.len() ==> #[trigger] s[i].guild_id != #[trigger] s[j].guild_id
}

/// The record for guild `g` among `s`, if any: the first match, which under
/// `unique_guilds` is the only one.
pub open spec fn config_for(s: Seq<GuildConfig>, g: i64) -> Option<ConfigView>
    decreases s.len(),
{
    if s.len() == 0 {
        None
    } else if s[0].guild_id == g {
        Some(s[0]@)
    } else {
        config_for(s.drop_first(), g)
    }
}

/// `config_for` finds nothing exactly when no record carries the guild id.
pub proof fn lemma_config_for_absent(s: Seq<GuildConfig>, g: i64)
    ensures
        (config_for(s, g) is None) <==> (forall|j: int|
            0 <= j < s.len() ==> #[trigger] s[j].guild_id != g),
    decreases s.len(),
{
    if s.len() > 0 {
        lemma_config_for_absent(s.drop_first(), g);
        if config_for(s, g) is None {
            assert forall|j: int| 0 <= j < s.len() implies #[trigger] s[j].guild_id != g by {
                if j > 0 {
                    assert(s.drop_first()[j - 1] == s[j]);
                }
            }
        } else {
            if s[0].guild_id != g {
                let rest = s.drop_first();
                assert(!(config_for(rest, g) is None));
                let w = choose|j: int| 0 <= j < rest.len() && #[trigger] rest[j].guild_id == g;
                assert(s[w + 1].guild_id == g);
            }
        }
    }
}

/// Appending a record only adds its own guild's entry: every other guild's
/// lookup is unchanged, and the new record is found when its guild had none.
pub proof fn lemma_config_for_push(s: Seq<GuildConfig>, c: GuildConfig, g: i64)
    ensures
        config_for(s.push(c), g) == (if config_for(s, g) is Some {
            config_for(s, g)
        } else if c.guild_id == g {
            Some(c@)
        } else {
            None
        }),
    decreases s.len(),
{
    if s.len() == 0 {
        assert(s.push(c)[0] == c);
        assert(s.push(c).drop_first() =~= Seq::<GuildConfig>::empty());
        assert(config_for(Seq::<GuildConfig>::empty(), g) is None);
        if c.guild_id == g {
            assert(config_for(s.push(c), g) == Some(c@));
        } else {
            assert(config_for(s.push(c), g) == config_for(s.push(c).drop_first(), g));
        }
    } else {
        assert(s.push(c)[0] == s[0]);
        assert(s.push(c).drop_first() =~= s.drop_first().push(c));
        lemma_config_for_push(s.drop_first(), c, g);
        if s[0].guild_id == g {
            assert(config_for(s.push(c), g) == Some(s[0]@));
        } else {
            assert(config_for(s.push(c), g) == config_for(s.drop_first().push(c), g));
            assert(config_for(s, g) == config_for(s.drop_first(), g));
        }
    }
}

/// Removing the record at `i` erases exactly that record's guild from the
/// lookup; all other guilds are unchanged.
pub proof fn lemma_config_for_remove(s: Seq<GuildConfig>, i: int, g: i64)
    requires
        unique_guilds(s),
        0 <= i < s.len(),
    ensures
        config_for(s.remove(i), g) == (if s[i].guild_id == g {
            None
        } else {
            config_for(s, g)
        }),
    decreases s.len(),
{
    if i == 0 {
        assert(s.remove(0) =~= s.drop_first());
        if s[0].guild_id == g {
            let rest = s.drop_first();
            assert forall|j: int| 0 <= j < rest.len() implies #[trigger] rest[j].guild_id != g by {
                assert(rest[j] == s[j + 1]);
            }
            lemma_config_for_absent(rest, g);
        }
    } else {
        assert(s.remove(i)[0] == s[0]);
        if s[0].guild_id == g {
        } else {
            let rest = s.drop_first();
            assert(unique_guilds(rest)) by {
                assert forall|a: int, b: int| 0 <= a < b < rest.len() implies #[trigger] rest[a].guild_id
                    != #[trigger] rest[b].guild_id by {
                    assert(rest[a] == s[a + 1]);
                    assert(rest[b] == s[b + 1]);
                }
            }
            assert(s.remove(i).drop_first() =~= rest.remove(i - 1));
            assert(rest[i - 1] == s[i]);
            lemma_config_for_remove(rest, i - 1, g);
        }
    }
}

/// Removal keeps guild ids unique.
pub proof fn lemma_unique_remove(s: Seq<GuildConfig>, i: int)
    requires
        unique_guilds(s),
        0 <= i < s.len(),
    ensures
        unique_guilds(s.remove(i)),
{
    let r = s.remove(i);
    assert forall|a: int, b: int| 0 <= a < b < r.len() implies #[trigger] r[a].guild_id
        != #[trigger] r[b].guild_id by {
        let a0 = if a < i {
            a
        } else {
            a + 1
        };
        let b0 = if b < i {
            b
        } else {
            b + 1
        };
        assert(r[a] == s[a0]);
        assert(r[b] == s[b0]);
    }
}

/// Appending a record for a guild that has none keeps guild ids unique.
pub proof fn lemma_unique_push(s: Seq<GuildConfig>, c: GuildConfig)
    requires
        unique_guilds(s),
        forall|j: int| 0 <= j < s.len() ==> #[trigger] s[j].guild_id != c.guild_id,
    ensures
        unique_guilds(s.push(c)),
{
    let r = s.push(c);
    assert forall|a: int, b: int| 0 <= a < b < r.len() implies #[trigger] r[a].guild_id
        != #[trigger] r[b].guild_id by {
        assert(r[a] == s[a]);
        if b < s.len() {
            assert(r[b] == s[b]);
        } else {
            assert(r[b] == c);
        }
    }
}

/// The in-memory configuration table: exactly one record per guild, each
/// within its field ranges.
#[derive(Debug)]
pub struct ConfigStore {
    entries: Vec<GuildConfig>,
}

impl ConfigStore {
    /// The stored records.
    pub closed spec fn view(&self) -> Seq<GuildConfig> {
        self.entries@
    }

    /// One record per guild, every record well-formed.
    pub open spec fn wf(&self) -> bool {
        &&& unique_guilds(self@)
        &&& forall|i: int| 0 <= i < self@.len() ==> (#[trigger] self@[i]).wf()
    }

    /// An empty store.
    pub fn new() -> (r: ConfigStore)
        ensures
            r.wf(),
            r@ =~= Seq::<GuildConfig>::empty(),
    {
        ConfigStore { entries: Vec::new() }
    }

    /// The position of guild `g`'s record, tied to what `config_for` sees.
    fn find(&self, g: i64) -> (r: Option<usize>)
        ensures
            match r {
                Some(i) => i < self@.len() && self@[i as int].guild_id == g && config_for(self@, g)
                    == Some(self@[i as int]@),
                None => config_for(self@, g) is None,
            },
    {
        let n = self.entries.len();
        let mut i: usize = 0;
        proof {
            assert(self@.skip(0) =~= self@);
        }
        while i < n
            invariant
                n == self@.len(),
                0 <= i <= n,
                config_for(self@, g) == config_for(self@.skip(i as int), g),
                forall|j: int| 0 <= j < i ==> #[trigger] self@[j].guild_id != g,
            decreases n - i,
        {
            if self.entries[i].guild_id == g {
                assert(self@.skip(i as int)[0] == self@[i as int]);
                return Some(i);
            }
            assert(self@.skip(i as int).drop_first() =~= self@.skip(i as int + 1));
            assert(self@.skip(i as int)[0] == self@[i as int]);
            i = i + 1;
        }
        assert(self@.skip(n as int) =~= Seq::<GuildConfig>::empty());
        None
    }

    /// Removes and returns the record at `i`, leaving its guild without one.
    fn take_at(&mut self, i: usize) -> (c: GuildConfig)
        requires
            old(self).wf(),
            i < old(self)@.len(),
        ensures
            final(self).wf(),
            c == old(self)@[i as int],
            c.wf(),
            config_for(final(self)@, c.guild_id) is None,
            forall|h: i64|
                h != c.guild_id ==> config_for(final(self)@, h) == config_for(old(self)@, h),
    {
        proof {
            lemma_unique_remove(self@, i as int);
            assert forall|h: i64|
                config_for(self@.remove(i as int), h) == (if self@[i as int].guild_id == h {
                    None
                } else {
                    config_for(self@, h)
                }) by {
                lemma_config_for_remove(self@, i as int, h);
            }
        }
        self.entries.remove(i)
    }

    /// Inserts a record for a guild that currently has none.
    fn put_back(&mut self, c: GuildConfig)
        requires
            old(self).wf(),
            c.wf(),
            config_for(old(self)@, c.guild_id) is None,
        ensures
            final(self).wf(),
            config_for(final(self)@, c.guild_id) == Some(c@),
            forall|h: i64|
                h != c.guild_id ==> config_for(final(self)@, h) == config_for(old(self)@, h),
    {
        proof {
            lemma_config_for_absent(self@, c.guild_id);
            lemma_unique_push(self@, c);
            assert forall|h: i64|
                config_for(self@.push(c), h) == (if config_for(self@, h) is Some {
                    config_for(self@, h)
                } else if c.guild_id == h {
                    Some(c@)
                } else {
                    None
                }) by {
                lemma_config_for_push(self@, c, h);
            }
        }
        self.entries.push(c);
    }

    /// The settings of guild `g`, creating the default record stamped `now`
    /// on first access.  Records of other guilds are untouched.
    pub fn get_guild_config(&mut self, g: i64, now: &str) -> (r: GuildConfig)
        requires
            old(self).wf(),
        ensures
            final(self).wf(),
            config_for(old(self)@, g) matches Some(c) ==> (r@ == c && final(self)@ == old(self)@),
            config_for(old(self)@, g) is None ==> (r@ == spec_fresh_config(g as int, now@)
                && config_for(final(self)@, g) == Some(spec_fresh_config(g as int, now@))),
            forall|h: i64| h != g ==> config_for(final(self)@, h) == config_for(old(self)@, h),
    {
        match self.find(g) {
            Some(i) => self.entries[i].duplicate(),
            None => self.create_guild_config(g, now),
        }
    }

    /// Inserts the default record for guild `g`, stamped `now`; the guild must
    /// not have one yet.  Returns a copy of the new record.
    pub fn create_guild_config(&mut self, g: i64, now: &str) -> (r: GuildConfig)
        requires
            old(self).wf(),
            config_for(old(self)@, g) is None,
        ensures
            final(self).wf(),
            r@ == spec_fresh_config(g as int, now@),
            config_for(final(self)@, g) == Some(spec_fresh_config(g as int, now@)),
            forall|h: i64| h != g ==> config_for(final(self)@, h) == config_for(old(self)@, h),
    {
        let c = GuildConfig::fresh(g, now);
        let r = c.duplicate();
        self.put_back(c);
        r
    }

    /// Deletes guild `g`'s record (if any) and recreates it with the default
    /// settings, stamped `now`.
    pub fn reset_guild_config(&mut self, g: i64, now: &str)
        requires
            old(self).wf(),
        ensures
            final(self).wf(),
            config_for(final(self)@, g) == Some(spec_fresh_config(g as int, now@)),
            forall|h: i64| h != g ==> config_for(final(self)@, h) == config_for(old(self)@, h),
    {
        match self.find(g) {
            Some(i) => {
                let _ = self.take_at(i);
            },
            None => {},
        }
        let _ = self.create_guild_config(g, now);
    }

    /// Sets or clears the DJ role of guild `g` and stamps the record `now`.
    /// A guild without a record is left without one (nothing to update).
    pub fn update_dj_role(&mut self, g: i64, role_id: Option<i64>, now: &str)
        requires
            old(self).wf(),
        ensures
            final(self).wf(),
            config_for(old(self)@, g) matches Some(c) ==> config_for(final(self)@, g) == Some(
                spec_with_dj_role(c, role_view(role_id), now@),
            ),
            config_for(old(self)@, g) is None ==> final(self)@ == old(self)@,
            forall|h: i64| h != g ==> config_for(final(self)@, h) == config_for(old(self)@, h),
    {
        match self.find(g) {
            Some(i) => {
                let mut c = self.take_at(i);
                c.dj_role_id = role_id;
                c.updated_at = now.to_owned();
                self.put_back(c);
            },
            None => {},
        }
    }

    /// Sets the default volume (0 to 200) of guild `g`.
    pub fn update_volume(&mut self, g: i64, volume: i16, now: &str)
        requires
            old(self).wf(),
            0 <= volume <= 200,
        ensures
            final(self).wf(),
            config_for(old(self)@, g) matches Some(c) ==> config_for(final(self)@, g) == Some(
                spec_with_volume(c, volume as int, now@),
            ),
            config_for(old(self)@, g) is None ==> final(self)@ == old(self)@,
            forall|h: i64| h != g ==> config_for(final(self)@, h) == config_for(old(self)@, h),
    {
        match self.find(g) {
            Some(i) => {
                let mut c = self.take_at(i);
                c.volume = volume;
                c.updated_at = now.to_owned();
                self.put_back(c);
            },
            None => {},
        }
    }

    /// Switches auto-disconnect on or off for guild `g`; with `time` given,
    /// also sets the debounce wait in seconds.
    pub fn update_auto_disconnect(&mut self, g: i64, enabled: bool, time: Option<i32>, now: &str)
        requires
            old(self).wf(),
            time matches Some(t) ==> t >= 0,
        ensures
            final(self).wf(),
            config_for(old(self)@, g) matches Some(c) ==> config_for(final(self)@, g) == Some(
                spec_with_auto_disconnect(c, enabled, time_view(time, c.auto_disconnect_time), now@),
            ),
            config_for(old(self)@, g) is None ==> final(self)@ == old(self)@,
            forall|h: i64| h != g ==> config_for(final(self)@, h) == config_for(old(self)@, h),
    {
        match self.find(g) {
            Some(i) => {
                let mut c = self.take_at(i);
                c.auto_disconnect = enabled;
                match time {
                    Some(t) => {
                        c.auto_disconnect_time = t;
                    },
                    None => {},
                }
                c.updated_at = now.to_owned();
                self.put_back(c);
            },
            None => {},
        }
    }

    /// Switches announcements on or off for guild `g` and sets or clears the
    /// announcement channel.
    pub fn update_announce_settings(
        &mut self,
        g: i64,
        announce_songs: bool,
        channel_id: Option<i64>,
        now: &str,
    )
        requires
            old(self).wf(),
        ensures
            final(self).wf(),
            config_for(old(self)@, g) matches Some(c) ==> config_for(final(self)@, g) == Some(
                spec_with_announce(c, announce_songs, role_view(channel_id), now@),
            ),
            config_for(old(self)@, g) is None ==> final(self)@ == old(self)@,
            forall|h: i64| h != g ==> config_for(final(self)@, h) == config_for(old(self)@, h),
    {
        match self.find(g) {
            Some(i) => {
                let mut c = self.take_at(i);
                c.announce_songs = announce_songs;
                c.announce_channel_id = channel_id;
                c.updated_at = now.to_owned();
                self.put_back(c);
            },
            None => {},
        }
    }

    /// Sets the queue bound (1 to 500) of guild `g`.
    pub fn update_max_queue_length(&mut self, g: i64, max_length: i32, now: &str)
        requires
            old(self).wf(),
            1 <= max_length <= 500,
        ensures
            final(self).wf(),
            config_for(old(self)@, g) matches Some(c) ==> config_for(final(self)@, g) == Some(
                spec_with_max_queue(c, max_length as int, now@),
            ),
            config_for(old(self)@, g) is None ==> final(self)@ == old(self)@,
            forall|h: i64| h != g ==> config_for(final(self)@, h) == config_for(old(self)@, h),
    {
        match self.find(g) {
            Some(i) => {
                let mut c = self.take_at(i);
                c.max_queue_length = max_length;
                c.updated_at = now.to_owned();
                self.put_back(c);
            },
            None => {},
        }
    }

    /// Allows or forbids audio filters for guild `g`.
    pub fn update_filters_setting(&mut self, g: i64, allow_filters: bool, now: &str)
        requires
            old(self).wf(),
        ensures
            final(self).wf(),
            config_for(old(self)@, g) matches Some(c) ==> config_for(final(self)@, g) == Some(
                spec_with_filters(c, allow_filters, now@),
            ),
            config_for(old(self)@, g) is None ==> final(self)@ == old(self)@,
            forall|h: i64| h != g ==> config_for(final(self)@, h) == config_for(old(self)@, h),
    {
        match self.find(g) {
            Some(i) => {
                let mut c = self.take_at(i);
                c.allow_filters = allow_filters;
                c.updated_at = now.to_owned();
                self.put_back(c);
            },
            None => {},
        }
    }
}

/// `Option<i64>` as its spec image.
pub open spec fn role_view(r: Option<i64>) -> Option<int> {
    match r {
        Some(x) => Some(x as int),
        None => None,
    }
}

/// The new debounce wait: `time` when given, else the old value.
pub open spec fn time_view(time: Option<i32>, previous: int) -> int {
    match time {
        Some(t) => t as int,
        None => previous,
    }
}

/// `c` with a new DJ role and update stamp.
pub open spec fn spec_with_dj_role(c: ConfigView, role: Option<int>, now: Seq<char>) -> ConfigView {
    ConfigView { dj_role_id: role, updated_at: now, ..c }
}

/// `c` with a new default volume and update stamp.
pub open spec fn spec_with_volume(c: ConfigView, volume: int, now: Seq<char>) -> ConfigView {
    ConfigView { volume, updated_at: now, ..c }
}

/// `c` with new auto-disconnect settings and update stamp.
pub open spec fn spec_with_auto_disconnect(
    c: ConfigView,
    enabled: bool,
    time: int,
    now: Seq<char>,
) -> ConfigView {
    ConfigView { auto_disconnect: enabled, auto_disconnect_time: time, updated_at: now, ..c }
}

/// `c` with new announcement settings and update stamp.
pub open spec fn spec_with_announce(
    c: ConfigView,
    announce_songs: bool,
    channel: Option<int>,
    now: Seq<char>,
) -> ConfigView {
    ConfigView { announce_songs, announce_channel_id: channel, updated_at: now, ..c }
}

/// `c` with a new queue bound and update stamp.
pub open spec fn spec_with_max_queue(c: ConfigView, max: int, now: Seq<char>) -> ConfigView {
    ConfigView { max_queue_length: max, updated_at: now, ..c }
}

/// `c` with a new filters setting and update stamp.
pub open spec fn spec_with_filters(c: ConfigView, allow: bool, now: Seq<char>) -> ConfigView {
    ConfigView { allow_filters: allow, updated_at: now, ..c }
}

} // verus!
