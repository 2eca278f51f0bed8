use vstd::prelude::*;
use vstd::string::StrSliceExecFns;
use vstd::string::StringExecFns;

use crate::strutil::dash_join;
use crate::strutil::str_eq;

verus! {

/// Placeholder shown when the player reports no title.
pub open spec fn unknown_title_text() -> Seq<char> {
    "Unknown Title"@
}

/// Placeholder shown when the player reports no artist.
pub open spec fn unknown_artist_text() -> Seq<char> {
    "Unknown Artist"@
}

/// Placeholder used as the album name when the player reports none, or an empty one.
pub open spec fn unknown_album_text() -> Seq<char> {
    "Unknown Album"@
}

/// A point-in-time reading of the player: identity fields, playback flag and progress.
/// `duration` is 0 when the player does not report one; `has_position` records whether
/// `position` came from the player or defaulted to 0.
pub struct Snapshot {
    pub title: String,
    pub artist: String,
    pub album: String,
    pub is_playing: bool,
    pub position: u64,
    pub duration: u64,
    pub has_position: bool,
}

/// A missing title defaults to its placeholder.
pub open spec fn normalized_title(title: Option<Seq<char>>) -> Seq<char> {
    match title {
        Option::Some(s) => s,
        Option::None => unknown_title_text(),
    }
}

/// A missing artist defaults to its placeholder.
pub open spec fn normalized_artist(artist: Option<Seq<char>>) -> Seq<char> {
    match artist {
        Option::Some(s) => s,
        Option::None => unknown_artist_text(),
    }
}

/// A missing or empty album defaults to its placeholder.
pub open spec fn normalized_album(album: Option<Seq<char>>) -> Seq<char> {
    match album {
        Option::Some(s) => if s.len() == 0 {
            unknown_album_text()
        } else {
            s
        },
        Option::None => unknown_album_text(),
    }
}

/// Fill the placeholder texts for fields the player omitted.
pub fn normalize_title(title: Option<String>) -> (r: String)
    ensures
        r@ == normalized_title(match title {
            Option::Some(s) => Option::Some(s@),
            Option::None => Option::None,
        }),
{
    match title {
        Option::Some(s) => s,
        Option::None => String::from_str("Unknown Title"),
    }
}

/// Fill the placeholder text when the player omitted the artist.
pub fn normalize_artist(artist: Option<String>) -> (r: String)
    ensures
        r@ == normalized_artist(match artist {
            Option::Some(s) => Option::Some(s@),
            Option::None => Option::None,
        }),
{
    match artist {
        Option::Some(s) => s,
        Option::None => String::from_str("Unknown Artist"),
    }
}

/// Fill the placeholder text when the player omitted the album or reported an empty one.
pub fn normalize_album(album: Option<String>) -> (r: String)
    ensures
        r@ == normalized_album(match album {
            Option::Some(s) => Option::Some(s@),
            Option::None => Option::None,
        }),
{
    match album {
        Option::Some(s) => if s.as_str().is_empty() {
            String::from_str("Unknown Album")
        } else {
            s
        },
        Option::None => String::from_str("Unknown Album"),
    }
}

/// The cache and change-detection key of an album: stable for the same artist and
/// album pair, whatever the track.
pub fn album_key(artist: &str, album: &str) -> (k: String)
    ensures
        k@ == artist@ + " - "@ + album@,
{
    dash_join(artist, album)
}

/// A snapshot carries nothing meaningful when every identity field is its
/// placeholder, or when the artist or the title is empty.
pub open spec fn snapshot_unusable(s: Snapshot) -> bool {
    ||| (s.title@ == unknown_title_text() && s.artist@ == unknown_artist_text() && s.album@
        == unknown_album_text())
    ||| s.artist@.len() == 0
    ||| s.title@.len() == 0
}

/// Decide whether a snapshot is too empty to publish.
pub fn is_unusable(s: &Snapshot) -> (r: bool)
    ensures
        r == snapshot_unusable(*s),
{
    let fully = str_eq(s.title.as_str(), "Unknown Title") && str_eq(
        s.artist.as_str(),
        "Unknown Artist",
    ) && str_eq(s.album.as_str(), "Unknown Album");
    fully || s.artist.as_str().is_empty() || s.title.as_str().is_empty()
}

} // verus!
