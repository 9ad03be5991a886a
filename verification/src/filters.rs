//! The audio filter presets a guild can choose, their display metadata, and
//! the rule deciding who may use one.  A preset's gain and timescale tables
//! are floating-point payloads of the audio node's protocol and are kept at
//! the boundary; the library owns the preset identity and the rules around
//! it.

use vstd::prelude::*;

verus! {

/// The selectable audio filter presets.
#[derive(Clone, Copy, PartialEq, Eq, Structural, Debug)]
pub enum FilterPreset {
    Bassboost,
    Nightcore,
    Vaporwave,
    EightD,
    Karaoke,
    Treble,
    Vibrato,
    Tremolo,
    Pop,
    Soft,
    Electronic,
    Rock,
    Clear,
}

impl FilterPreset {
    /// The preset's display name.
    pub fn name(&self) -> (r: &'static str)
        ensures
            r@ == self.name_spec(),
    {
        match self {
            FilterPreset::Bassboost => "Bass Boost",
            FilterPreset::Nightcore => "Nightcore",
            FilterPreset::Vaporwave => "Vaporwave",
            FilterPreset::EightD => "8D Audio",
            FilterPreset::Karaoke => "Karaoke",
            FilterPreset::Treble => "Treble Boost",
            FilterPreset::Vibrato => "Vibrato",
            FilterPreset::Tremolo => "Tremolo",
            FilterPreset::Pop => "Pop",
            FilterPreset::Soft => "Soft",
            FilterPreset::Electronic => "Electronic",
            FilterPreset::Rock => "Rock",
            FilterPreset::Clear => "Clear (No Filters)",
        }
    }

    /// What `name` returns for each preset.
    pub open spec fn name_spec(&self) -> Seq<char> {
        match self {
            FilterPreset::Bassboost => "Bass Boost"@,
            FilterPreset::Nightcore => "Nightcore"@,
            FilterPreset::Vaporwave => "Vaporwave"@,
            FilterPreset::EightD => "8D Audio"@,
            FilterPreset::Karaoke => "Karaoke"@,
            FilterPreset::Treble => "Treble Boost"@,
            FilterPreset::Vibrato => "Vibrato"@,
            FilterPreset::Tremolo => "Tremolo"@,
            FilterPreset::Pop => "Pop"@,
            FilterPreset::Soft => "Soft"@,
            FilterPreset::Electronic => "Electronic"@,
            FilterPreset::Rock => "Rock"@,
            FilterPreset::Clear => "Clear (No Filters)"@,
        }
    }

    /// The preset's one-line description.
    pub fn description(&self) -> (r: &'static str)
        ensures
            r@ == self.description_spec(),
    {
        match self {
            FilterPreset::Bassboost => "Amplifies low frequencies for extra bass",
            FilterPreset::Nightcore => "Increases speed and pitch for that nightcore feel",
            FilterPreset::Vaporwave => "Slows down speed and pitch for a dreamy vibe",
            FilterPreset::EightD => "Creates a rotating audio effect around your head",
            FilterPreset::Karaoke => "Reduces vocals for karaoke sessions",
            FilterPreset::Treble => "Amplifies high frequencies",
            FilterPreset::Vibrato => "Adds a vibrating pitch effect",
            FilterPreset::Tremolo => "Adds a trembling volume effect",
            FilterPreset::Pop => "Optimized for pop music",
            FilterPreset::Soft => "Reduces harsh frequencies for a softer sound",
            FilterPreset::Electronic => "Enhanced for electronic/EDM music",
            FilterPreset::Rock => "Optimized for rock music",
            FilterPreset::Clear => "Removes all audio filters",
        }
    }

    /// What `description` returns for each preset.
    pub open spec fn description_spec(&self) -> Seq<char> {
        match self {
            FilterPreset::Bassboost => "Amplifies low frequencies for extra bass"@,
            FilterPreset::Nightcore => "Increases speed and pitch for that nightcore feel"@,
            FilterPreset::Vaporwave => "Slows down speed and pitch for a dreamy vibe"@,
            FilterPreset::EightD => "Creates a rotating audio effect around your head"@,
            FilterPreset::Karaoke => "Reduces vocals for karaoke sessions"@,
            FilterPreset::Treble => "Amplifies high frequencies"@,
            FilterPreset::Vibrato => "Adds a vibrating pitch effect"@,
            FilterPreset::Tremolo => "Adds a trembling volume effect"@,
            FilterPreset::Pop => "Optimized for pop music"@,
            FilterPreset::Soft => "Reduces harsh frequencies for a softer sound"@,
            FilterPreset::Electronic => "Enhanced for electronic/EDM music"@,
            FilterPreset::Rock => "Optimized for rock music"@,
            FilterPreset::Clear => "Removes all audio filters"@,
        }
    }

    /// The emoji code shown beside the preset.
    pub fn emoji(&self) -> (r: &'static str)
        ensures
            r@ == self.emoji_spec(),
    {
        match self {
            FilterPreset::Bassboost => "<:vol3:1459594782920671373>",
            FilterPreset::Nightcore => "<:thunder:1460010342095524048>",
            FilterPreset::Vaporwave => "<:cloud:1460010003594481946>",
            FilterPreset::EightD => "<:headphones:1459594791577714738>",
            FilterPreset::Karaoke => "<:song:1459594788998348875>",
            FilterPreset::Treble => "<:musicnotes:1459594797634293811>",
            FilterPreset::Vibrato => "<:star:1460009999513161914>",
            FilterPreset::Tremolo => "<:magnet:1460010859521773628>",
            FilterPreset::Pop => "<:musicnotes:1459594797634293811>",
            FilterPreset::Soft => "<:sprout:1460010703728676994>",
            FilterPreset::Electronic => "<:thunder:1460010342095524048>",
            FilterPreset::Rock => "<:fire:1460010340862656616>",
            FilterPreset::Clear => "<:stars:1460010000784298147>",
        }
    }

    /// What `emoji` returns for each preset.
    pub open spec fn emoji_spec(&self) -> Seq<char> {
        match self {
            FilterPreset::Bassboost => "<:vol3:1459594782920671373>"@,
            FilterPreset::Nightcore => "<:thunder:1460010342095524048>"@,
            FilterPreset::Vaporwave => "<:cloud:1460010003594481946>"@,
            FilterPreset::EightD => "<:headphones:1459594791577714738>"@,
            FilterPreset::Karaoke => "<:song:1459594788998348875>"@,
            FilterPreset::Treble => "<:musicnotes:1459594797634293811>"@,
            FilterPreset::Vibrato => "<:star:1460009999513161914>"@,
            FilterPreset::Tremolo => "<:magnet:1460010859521773628>"@,
            FilterPreset::Pop => "<:musicnotes:1459594797634293811>"@,
            FilterPreset::Soft => "<:sprout:1460010703728676994>"@,
            FilterPreset::Electronic => "<:thunder:1460010342095524048>"@,
            FilterPreset::Rock => "<:fire:1460010340862656616>"@,
            FilterPreset::Clear => "<:stars:1460010000784298147>"@,
        }
    }

    /// The identifier a chat autocomplete or wire request selects the preset
    /// by: the display name, lowercased with underscores for spaces.
    pub fn slug(&self) -> (r: &'static str)
        ensures
            r@ == self.slug_spec(),
    {
        match self {
            FilterPreset::Bassboost => "bass_boost",
            FilterPreset::Nightcore => "nightcore",
            FilterPreset::Vaporwave => "vaporwave",
            FilterPreset::EightD => "8d_audio",
            FilterPreset::Karaoke => "karaoke",
            FilterPreset::Treble => "treble_boost",
            FilterPreset::Vibrato => "vibrato",
            FilterPreset::Tremolo => "tremolo",
            FilterPreset::Pop => "pop",
            FilterPreset::Soft => "soft",
            FilterPreset::Electronic => "electronic",
            FilterPreset::Rock => "rock",
            FilterPreset::Clear => "clear_(no_filters)",
        }
    }

    /// What `slug` returns for each preset.
    pub open spec fn slug_spec(&self) -> Seq<char> {
        match self {
            FilterPreset::Bassboost => "bass_boost"@,
            FilterPreset::Nightcore => "nightcore"@,
            FilterPreset::Vaporwave => "vaporwave"@,
            FilterPreset::EightD => "8d_audio"@,
            FilterPreset::Karaoke => "karaoke"@,
            FilterPreset::Treble => "treble_boost"@,
            FilterPreset::Vibrato => "vibrato"@,
            FilterPreset::Tremolo => "tremolo"@,
            FilterPreset::Pop => "pop"@,
            FilterPreset::Soft => "soft"@,
            FilterPreset::Electronic => "electronic"@,
            FilterPreset::Rock => "rock"@,
            FilterPreset::Clear => "clear_(no_filters)"@,
        }
    }

    /// The preset a slug selects, if any.
    pub open spec fn from_slug_spec(s: Seq<char>) -> Option<FilterPreset> {
        if s == "bass_boost"@ {
            Some(FilterPreset::Bassboost)
        } else if s == "nightcore"@ {
            Some(FilterPreset::Nightcore)
        } else if s == "vaporwave"@ {
            Some(FilterPreset::Vaporwave)
        } else if s == "8d_audio"@ {
            Some(FilterPreset::EightD)
        } else if s == "karaoke"@ {
            Some(FilterPreset::Karaoke)
        } else if s == "treble_boost"@ {
            Some(FilterPreset::Treble)
        } else if s == "vibrato"@ {
            Some(FilterPreset::Vibrato)
        } else if s == "tremolo"@ {
            Some(FilterPreset::Tremolo)
        } else if s == "pop"@ {
            Some(FilterPreset::Pop)
        } else if s == "soft"@ {
            Some(FilterPreset::Soft)
        } else if s == "electronic"@ {
            Some(FilterPreset::Electronic)
        } else if s == "rock"@ {
            Some(FilterPreset::Rock)
        } else if s == "clear_(no_filters)"@ {
            Some(FilterPreset::Clear)
        } else {
            None
        }
    }

    /// Selects a preset by its slug; an unknown slug selects none.
    pub fn from_slug(s: &str) -> (r: Option<FilterPreset>)
        ensures
            r == Self::from_slug_spec(s@),
    {
        let t = s.to_owned();
        if t == "bass_boost".to_owned() {
            Some(FilterPreset::Bassboost)
        } else if t == "nightcore".to_owned() {
            Some(FilterPreset::Nightcore)
        } else if t == "vaporwave".to_owned() {
            Some(FilterPreset::Vaporwave)
        } else if t == "8d_audio".to_owned() {
            Some(FilterPreset::EightD)
        } else if t == "karaoke".to_owned() {
            Some(FilterPreset::Karaoke)
        } else if t == "treble_boost".to_owned() {
            Some(FilterPreset::Treble)
        } else if t == "vibrato".to_owned() {
            Some(FilterPreset::Vibrato)
        } else if t == "tremolo".to_owned() {
            Some(FilterPreset::Tremolo)
        } else if t == "pop".to_owned() {
            Some(FilterPreset::Pop)
        } else if t == "soft".to_owned() {
            Some(FilterPreset::Soft)
        } else if t == "electronic".to_owned() {
            Some(FilterPreset::Electronic)
        } else if t == "rock".to_owned() {
            Some(FilterPreset::Rock)
        } else if t == "clear_(no_filters)".to_owned() {
            Some(FilterPreset::Clear)
        } else {
            None
        }
    }

    /// Every preset, in display order.
    pub fn all_presets() -> (r: Vec<FilterPreset>)
        ensures
            r@ =~= seq![
                FilterPreset::Bassboost,
                FilterPreset::Nightcore,
                FilterPreset::Vaporwave,
                FilterPreset::EightD,
                FilterPreset::Karaoke,
                FilterPreset::Treble,
                FilterPreset::Vibrato,
                FilterPreset::Tremolo,
                FilterPreset::Pop,
                FilterPreset::Soft,
                FilterPreset::Electronic,
                FilterPreset::Rock,
                FilterPreset::Clear,
            ],
    {
        let mut v: Vec<FilterPreset> = Vec::new();
        v.push(FilterPreset::Bassboost);
        v.push(FilterPreset::Nightcore);
        v.push(FilterPreset::Vaporwave);
        v.push(FilterPreset::EightD);
        v.push(FilterPreset::Karaoke);
        v.push(FilterPreset::Treble);
        v.push(FilterPreset::Vibrato);
        v.push(FilterPreset::Tremolo);
        v.push(FilterPreset::Pop);
        v.push(FilterPreset::Soft);
        v.push(FilterPreset::Electronic);
        v.push(FilterPreset::Rock);
        v.push(FilterPreset::Clear);
        v
    }
}

/// Why a filter request was refused, or that it may proceed.
#[derive(Clone, Copy, PartialEq, Eq, Structural, Debug)]
pub enum FilterGate {
    /// The caller lacks the DJ role and admin permissions.
    PermissionDenied,
    /// The caller is not in the bot's voice channel.
    NotInVoice,
    /// The guild has filters switched off.
    FiltersDisabled,
    /// The request may go to the audio node.
    Allowed,
}

/// Checked before any filter request: DJ-or-admin first, then voice
/// membership, then the guild's filters switch.
pub fn filter_gate(is_dj_or_admin: bool, in_voice: bool, allow_filters: bool) -> (r: FilterGate)
    ensures
        !is_dj_or_admin ==> r is PermissionDenied,
        is_dj_or_admin && !in_voice ==> r is NotInVoice,
        is_dj_or_admin && in_voice && !allow_filters ==> r is FiltersDisabled,
        is_dj_or_admin && in_voice && allow_filters ==> r is Allowed,
{
    if !is_dj_or_admin {
        FilterGate::PermissionDenied
    } else if !in_voice {
        FilterGate::NotInVoice
    } else if !allow_filters {
        FilterGate::FiltersDisabled
    } else {
        FilterGate::Allowed
    }
}

} // verus!
