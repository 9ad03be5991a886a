//! Command-level kernels: the nothing-playing gate of the playback commands,
//! the queue command's overview text (built from the node's now-playing
//! report and the session queue), and the configuration overview embed.

use vstd::prelude::*;

use crate::announce::{Embed, EmbedField, COLOR_INFO};
use crate::bridge::PlayerDirective;
use crate::config::GuildConfig;
use crate::queue::{Queue, QueuedTrack, TrackMeta};
use crate::strutil::{i64_to_dec, spec_i64_dec, spec_u64_dec, u64_to_dec};

verus! {

/// The nothing-playing gate of the chat skip, stop and seek commands: their
/// directive goes to the audio node only when the node reports a current
/// track; with nothing playing, no directive is issued and the command
/// answers that nothing is playing.
pub fn now_playing_gate(now_playing: Option<&TrackMeta>, directive: PlayerDirective) -> (r: Option<
    PlayerDirective,
>)
    ensures
        now_playing is Some ==> r == Some(directive),
        now_playing is None ==> r is None,
{
    match now_playing {
        Some(_) => Some(directive),
        None => None,
    }
}

/// The overview's first line: what is playing now.
pub open spec fn spec_now_line(now: Option<TrackMeta>) -> Seq<char> {
    match now {
        Some(t) => "**Now Playing:** "@ + t.author@ + " - "@ + t.title@ + "\n\n"@,
        None => "No track is currently playing.\n"@,
    }
}

/// The numbered track list `start. title`, one line each.
pub open spec fn spec_numbered_lines(titles: Seq<Seq<char>>, start: nat) -> Seq<char>
    decreases titles.len(),
{
    if titles.len() == 0 {
        Seq::empty()
    } else {
        spec_u64_dec(start) + ". "@ + titles[0] + "\n"@ + spec_numbered_lines(
            titles.drop_first(),
            start + 1,
        )
    }
}

/// Numbering one more title extends the list by one line at the end.
proof fn lemma_numbered_lines_push(titles: Seq<Seq<char>>, x: Seq<char>, start: nat)
    ensures
        spec_numbered_lines(titles.push(x), start) =~= spec_numbered_lines(titles, start)
            + spec_u64_dec(start + titles.len()) + ". "@ + x + "\n"@,
    decreases titles.len(),
{
    if titles.len() == 0 {
        assert(titles.push(x)[0] == x);
        assert(titles.push(x).drop_first() =~= Seq::<Seq<char>>::empty());
        assert(spec_numbered_lines(Seq::<Seq<char>>::empty(), start + 1) =~= Seq::<char>::empty());
    } else {
        assert(titles.push(x)[0] == titles[0]);
        assert(titles.push(x).drop_first() =~= titles.drop_first().push(x));
        lemma_numbered_lines_push(titles.drop_first(), x, start + 1);
    }
}

/// The titles the overview lists: the first nine queued tracks (or all of
/// them, when fewer).
pub open spec fn spec_listed_titles(q: Seq<QueuedTrack>) -> Seq<Seq<char>> {
    let shown = if q.len() <= 9 {
        q.len() as int
    } else {
        9
    };
    q.take(shown).map_values(|t: QueuedTrack| t.track.title@)
}

/// The whole overview: the now-playing line, the `**On Queue**:` heading, and
/// the numbered list — or `Queue is empty` under the heading.
pub open spec fn spec_queue_overview(now: Option<TrackMeta>, q: Seq<QueuedTrack>) -> Seq<char> {
    spec_now_line(now) + "**On Queue**:\n"@ + (if q.len() == 0 {
        "Queue is empty"@
    } else {
        spec_numbered_lines(spec_listed_titles(q), 1)
    })
}

/// Formats the queue command's reply text: the now-playing line (from the
/// node's report, the source of truth), then the first nine queued tracks,
/// numbered from 1 — or `Queue is empty`.
pub fn queue_overview(now_playing: Option<&TrackMeta>, queue: &Queue) -> (s: String)
    ensures
        s@ =~= spec_queue_overview(
            match now_playing {
                Some(t) => Some(*t),
                None => None,
            },
            queue@,
        ),
{
    let mut s: String = match now_playing {
        Some(t) => {
            let mut line = "**Now Playing:** ".to_owned();
            line.append(t.author.as_str());
            line.append(" - ");
            line.append(t.title.as_str());
            line.append("\n\n");
            line
        },
        None => "No track is currently playing.\n".to_owned(),
    };
    s.append("**On Queue**:\n");
    let count = queue.count();
    if count == 0 {
        s.append("Queue is empty");
        return s;
    }
    let shown: usize = if count <= 9 {
        count
    } else {
        9
    };
    let ghost titles = spec_listed_titles(queue@);
    proof {
        assert(titles.len() == shown);
    }
    let mut lines = "".to_owned();
    proof {
        reveal_strlit("");
        assert(""@ =~= Seq::<char>::empty());
        assert(titles.take(0) =~= Seq::<Seq<char>>::empty());
    }
    let mut i: usize = 0;
    while i < shown
        invariant
            shown <= queue@.len(),
            titles == spec_listed_titles(queue@),
            titles.len() == shown,
            0 <= i <= shown,
            forall|k: int| 0 <= k < shown ==> #[trigger] titles[k] == queue@[k].track.title@,
            lines@ =~= spec_numbered_lines(titles.take(i as int), 1),
        decreases shown - i,
    {
        let num = u64_to_dec((i + 1) as u64);
        lines.append(num.as_str());
        lines.append(". ");
        match queue.peek_at(i) {
            Some(t) => lines.append(t.track.title.as_str()),
            None => {
                assert(false);
            },
        }
        lines.append("\n");
        proof {
            lemma_numbered_lines_push(titles.take(i as int), titles[i as int], 1);
            assert(titles.take(i as int).push(titles[i as int]) =~= titles.take(i as int + 1));
        }
        i = i + 1;
    }
    proof {
        assert(titles.take(shown as int) =~= titles);
    }
    s.append(lines.as_str());
    s
}

/// A boolean as display text.
pub open spec fn spec_bool_text(b: bool) -> Seq<char> {
    if b {
        "true"@
    } else {
        "false"@
    }
}

fn bool_text(b: bool) -> (s: &'static str)
    ensures
        s@ == spec_bool_text(b),
{
    if b {
        "true"
    } else {
        "false"
    }
}

/// The DJ role line of the configuration overview.
pub open spec fn spec_dj_role_text(role: Option<int>) -> Seq<char> {
    match role {
        Some(r) => "<@&"@ + spec_i64_dec(r) + ">"@,
        None => "Not set (Everyone can use music commands)"@,
    }
}

/// The auto-disconnect line of the configuration overview.
pub open spec fn spec_auto_disconnect_text(enabled: bool, seconds: int) -> Seq<char> {
    if enabled {
        "Enabled ("@ + spec_i64_dec(seconds) + "s)"@
    } else {
        "Disabled"@
    }
}

/// The announcement channel line of the configuration overview.
pub open spec fn spec_announce_channel_text(channel: Option<int>) -> Seq<char> {
    match channel {
        Some(c) => "<#"@ + spec_i64_dec(c) + ">"@,
        None => "Current channel"@,
    }
}

/// What the configuration overview embed shows of a record.
pub open spec fn is_config_overview_embed(e: Embed, c: GuildConfig) -> bool {
    &&& e.title@ == "Guild Configuration"@
    &&& e.fields@.len() == 8
    &&& e.fields@[0].name@ == "DJ Role"@
    &&& e.fields@[0].value@ == spec_dj_role_text(c@.dj_role_id)
    &&& !e.fields@[0].inline
    &&& e.fields@[1].name@ == "Default Volume"@
    &&& e.fields@[1].value@ == spec_i64_dec(c@.volume) + "%"@
    &&& e.fields@[1].inline
    &&& e.fields@[2].name@ == "Max Queue Length"@
    &&& e.fields@[2].value@ == spec_i64_dec(c@.max_queue_length)
    &&& e.fields@[2].inline
    &&& e.fields@[3].name@ == "Auto Disconnect"@
    &&& e.fields@[3].value@ == spec_auto_disconnect_text(
        c@.auto_disconnect,
        c@.auto_disconnect_time,
    )
    &&& !e.fields@[3].inline
    &&& e.fields@[4].name@ == "Announce Songs"@
    &&& e.fields@[4].value@ == spec_bool_text(c@.announce_songs)
    &&& e.fields@[4].inline
    &&& e.fields@[5].name@ == "Announce Channel"@
    &&& e.fields@[5].value@ == spec_announce_channel_text(c@.announce_channel_id)
    &&& e.fields@[5].inline
    &&& e.fields@[6].name@ == "Allow Filters"@
    &&& e.fields@[6].value@ == spec_bool_text(c@.allow_filters)
    &&& e.fields@[6].inline
    &&& e.fields@[7].name@ == "Allow Explicit"@
    &&& e.fields@[7].value@ == spec_bool_text(c@.allow_explicit)
    &&& e.fields@[7].inline
    &&& e.color == COLOR_INFO
    &&& e.thumbnail is None
}

/// Formats the configuration overview a guild's settings command replies
/// with: DJ role, default volume, queue bound, auto-disconnect state,
/// announcement settings, and the filter and explicit switches.
pub fn config_overview(c: &GuildConfig) -> (e: Embed)
    ensures
        is_config_overview_embed(e, *c),
{
    let dj = match c.dj_role_id {
        Some(r) => {
            let mut t = "<@&".to_owned();
            t.append(i64_to_dec(r).as_str());
            t.append(">");
            t
        },
        None => "Not set (Everyone can use music commands)".to_owned(),
    };
    let mut volume = i64_to_dec(c.volume as i64);
    volume.append("%");
    let auto = if c.auto_disconnect {
        let mut t = "Enabled (".to_owned();
        t.append(i64_to_dec(c.auto_disconnect_time as i64).as_str());
        t.append("s)");
        t
    } else {
        "Disabled".to_owned()
    };
    let channel = match c.announce_channel_id {
        Some(ch) => {
            let mut t = "<#".to_owned();
            t.append(i64_to_dec(ch).as_str());
            t.append(">");
            t
        },
        None => "Current channel".to_owned(),
    };
    let mut fields: Vec<EmbedField> = Vec::new();
    fields.push(EmbedField { name: "DJ Role".to_owned(), value: dj, inline: false });
    fields.push(EmbedField { name: "Default Volume".to_owned(), value: volume, inline: true });
    fields.push(
        EmbedField {
            name: "Max Queue Length".to_owned(),
            value: i64_to_dec(c.max_queue_length as i64),
            inline: true,
        },
    );
    fields.push(EmbedField { name: "Auto Disconnect".to_owned(), value: auto, inline: false });
    fields.push(
        EmbedField {
            name: "Announce Songs".to_owned(),
            value: bool_text(c.announce_songs).to_owned(),
            inline: true,
        },
    );
    fields.push(EmbedField { name: "Announce Channel".to_owned(), value: channel, inline: true });
    fields.push(
        EmbedField {
            name: "Allow Filters".to_owned(),
            value: bool_text(c.allow_filters).to_owned(),
            inline: true,
        },
    );
    fields.push(
        EmbedField {
            name: "Allow Explicit".to_owned(),
            value: bool_text(c.allow_explicit).to_owned(),
            inline: true,
        },
    );
    Embed {
        title: "Guild Configuration".to_owned(),
        description: "".to_owned(),
        fields,
        color: COLOR_INFO,
        thumbnail: None,
        has_timestamp: false,
    }
}

} // verus!
