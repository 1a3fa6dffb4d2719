//! Resolving a media-player snapshot into its display string: tolerant
//! of missing metadata, with a fixed fallback when nothing is known.

use vstd::prelude::*;
use vstd::string::StringExecFns;

verus! {

/// Playback state as reported by the player endpoint.
#[derive(Clone, Copy, PartialEq, Eq, Debug)]
pub enum PlaybackStatus {
    Playing,
    Paused,
    Stopped,
    Unknown,
}

/// What one poll learned of the active player: playback state, the
/// track's artist list (if the track carries one) and its title.
#[derive(Clone, Debug)]
pub struct PlayerSnapshot {
    pub status: PlaybackStatus,
    pub artists: Option<Vec<String>>,
    pub title: Option<String>,
}

/// The artist shown: the first entry of the artist list if the list is
/// present and non-empty, otherwise nothing.
pub open spec fn spec_artist(p: PlayerSnapshot) -> Seq<char> {
    match p.artists {
        Option::Some(a) => if a@.len() > 0 {
            a@[0]@
        } else {
            Seq::empty()
        },
        Option::None => Seq::empty(),
    }
}

/// The title shown: the track title if present, otherwise nothing.
pub open spec fn spec_title(p: PlayerSnapshot) -> Seq<char> {
    match p.title {
        Option::Some(t) => t@,
        Option::None => Seq::empty(),
    }
}

/// The song label: artist and title around an em-dash, or the fallback
/// phrase when both are empty.
pub open spec fn spec_song(p: PlayerSnapshot) -> Seq<char> {
    if spec_artist(p).len() == 0 && spec_title(p).len() == 0 {
        "Something is playing..."@
    } else {
        spec_artist(p) + " — "@ + spec_title(p)
    }
}

/// The display name of a playback state.
pub open spec fn spec_status_label(st: PlaybackStatus) -> Seq<char> {
    match st {
        PlaybackStatus::Playing => "Playing"@,
        PlaybackStatus::Paused => "Paused"@,
        PlaybackStatus::Stopped => "Stopped"@,
        PlaybackStatus::Unknown => "Unknown"@,
    }
}

/// A paused or stopped player gets its state prefixed in parentheses;
/// any other state leaves the song label bare.
pub open spec fn spec_resolve_snapshot(p: PlayerSnapshot) -> Seq<char> {
    if p.status is Paused || p.status is Stopped {
        "("@ + spec_status_label(p.status) + ") "@ + spec_song(p)
    } else {
        spec_song(p)
    }
}

/// The resolved player segment: a fixed fallback when no player was
/// found, else the (possibly prefixed) song label.
pub open spec fn spec_resolve(o: Option<PlayerSnapshot>) -> Seq<char> {
    match o {
        Option::None => "No players found"@,
        Option::Some(p) => spec_resolve_snapshot(p),
    }
}

fn status_label(st: &PlaybackStatus) -> (r: &'static str)
    ensures
        r@ == spec_status_label(*st),
{
    match st {
        PlaybackStatus::Playing => "Playing",
        PlaybackStatus::Paused => "Paused",
        PlaybackStatus::Stopped => "Stopped",
        PlaybackStatus::Unknown => "Unknown",
    }
}

/// The resolver of the player segment.
pub struct PlayerStatusResolver;

impl PlayerStatusResolver {
    /// Resolves an optional player snapshot into its display string.
    pub fn resolve(active: &Option<PlayerSnapshot>) -> (r: String)
        ensures
            r@ == spec_resolve(*active),
    {
        match active {
            Option::None => String::from_str("No players found"),
            Option::Some(p) => {
                let artist: &str = match &p.artists {
                    Option::Some(a) => if a.len() > 0 {
                        a[0].as_str()
                    } else {
                        ""
                    },
                    Option::None => "",
                };
                let title: &str = match &p.title {
                    Option::Some(t) => t.as_str(),
                    Option::None => "",
                };
                proof {
                    reveal_strlit("");
                    assert(""@ =~= Seq::<char>::empty());
                    assert(artist@ == spec_artist(*p));
                    assert(title@ == spec_title(*p));
                }
                let song: String = if artist.is_empty() && title.is_empty() {
                    String::from_str("Something is playing...")
                } else {
                    let mut s = String::from_str(artist);
                    s.append(" — ");
                    s.append(title);
                    s
                };
                match p.status {
                    PlaybackStatus::Paused | PlaybackStatus::Stopped => {
                        let mut r = String::from_str("(");
                        r.append(status_label(&p.status));
                        r.append(") ");
                        r.append(song.as_str());
                        r
                    },
                    _ => song,
                }
            },
        }
    }
}

/// Law: with zero players found, the resolved segment is exactly
/// `"No players found"`.
pub proof fn lemma_resolve_no_player()
    ensures
        spec_resolve(Option::None) == "No players found"@,
{
}

/// Law: when both the artist and the title resolve to nothing, the song
/// label is exactly the fallback phrase `"Something is playing..."`.
pub proof fn lemma_song_fallback(p: PlayerSnapshot)
    requires
        spec_artist(p).len() == 0,
        spec_title(p).len() == 0,
    ensures
        spec_song(p) == "Something is playing..."@,
{
}

/// Law: when at least one of artist and title is non-empty, the song
/// label is the two around a single em-dash flanked by spaces.
pub proof fn lemma_song_label(p: PlayerSnapshot)
    requires
        spec_artist(p).len() > 0 || spec_title(p).len() > 0,
    ensures
        spec_song(p) == spec_artist(p) + " — "@ + spec_title(p),
{
}

/// Law: a paused or stopped player is prefixed `"(<State>) "`; every
/// other state leaves the song label unprefixed.
pub proof fn lemma_status_prefix(p: PlayerSnapshot)
    ensures
        (p.status is Paused || p.status is Stopped) ==> spec_resolve_snapshot(p) == "("@
            + spec_status_label(p.status) + ") "@ + spec_song(p),
        !(p.status is Paused || p.status is Stopped) ==> spec_resolve_snapshot(p) == spec_song(p),
{
}

} // verus!
