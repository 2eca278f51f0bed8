use vstd::prelude::*;
use vstd::string::StringExecFns;

use crate::metadata::Snapshot;
use crate::strutil::dash_join;
use crate::urltext::encode_component;
use crate::urltext::url_encoded;

verus! {

/// The timestamps a published activity carries: a progress bar (start and end) for a
/// playing track of known position and duration, the stable start alone when paused,
/// and the start time as a bare end marker when position or duration is unknown.
#[derive(Clone, Copy, PartialEq, Eq, Structural, Debug)]
pub enum Timestamps {
    StartEnd { start: u64, end: u64 },
    StartOnly { start: u64 },
    EndOnly { end: u64 },
}

/// An external-link button under the activity.
pub struct ButtonModel {
    pub label: String,
    pub url: String,
}

/// The activity payload handed to the presence peer, as plain values.
pub struct ActivityModel {
    pub details: String,
    pub state_line: String,
    pub large_image: String,
    pub small_image: String,
    pub large_text: String,
    pub small_text: String,
    pub timestamps: Timestamps,
    pub buttons: Vec<ButtonModel>,
}

/// The epoch second the track started: now minus the position, floored at zero so a
/// clock behind the player cannot underflow it.
pub open spec fn start_stamp(now: u64, position: u64) -> u64 {
    if position <= now {
        (now - position) as u64
    } else {
        0u64
    }
}

/// The epoch second the track will end, saturated at the largest representable one.
pub open spec fn end_stamp(start: u64, duration: u64) -> u64 {
    if start + duration <= u64::MAX {
        (start + duration) as u64
    } else {
        u64::MAX
    }
}

/// Which timestamps the snapshot warrants, per the edge-case policy on unknown
/// duration or position.
pub open spec fn planned_stamps(s: Snapshot, now: u64) -> Timestamps {
    let start = start_stamp(now, s.position);
    if s.has_position && s.duration > 0 {
        if s.is_playing {
            Timestamps::StartEnd { start, end: end_stamp(start, s.duration) }
        } else {
            Timestamps::StartOnly { start }
        }
    } else {
        Timestamps::EndOnly { end: start }
    }
}

/// Build the activity payload for a snapshot: the title padded by one space (the
/// peer rejects one-character details), the "by:" and "album:" lines, the cover or
/// its sentinel, the playback status icon and text, the timestamps, and up to two
/// link buttons (a YouTube search for "artist - title", and the user's profile).
pub fn build_activity(
    s: &Snapshot,
    cover: &String,
    now: u64,
    yt_button: bool,
    lastfm_nickname: Option<&String>,
) -> (a: ActivityModel)
    ensures
        a.details@ == s.title@ + " "@,
        a.state_line@ == "by: "@ + s.artist@,
        a.large_text@ == "album: "@ + s.album@,
        a.small_image@ == (if s.is_playing {
            "playing"@
        } else {
            "paused"@
        }),
        a.small_text@ == a.small_image@,
        a.large_image@ == (if cover@.len() == 0 {
            "missing-cover"@
        } else {
            cover@
        }),
        a.timestamps == planned_stamps(*s, now),
        a.buttons@.len() == (if yt_button {
            1int
        } else {
            0int
        }) + (if lastfm_nickname is Some {
            1int
        } else {
            0int
        }),
        yt_button ==> a.buttons@[0].label@ == "Search this song on YouTube"@
            && a.buttons@[0].url@ == "https://www.youtube.com/results?search_query="@
            + url_encoded(s.artist@ + " - "@ + s.title@),
        lastfm_nickname matches Option::Some(nick) ==> ({
            let j = if yt_button {
                1int
            } else {
                0int
            };
            a.buttons@[j].label@ == "Open user's last.fm profile"@ && a.buttons@[j].url@
                == "https://www.last.fm/user/"@ + url_encoded(nick@)
        }),
{
    let mut details = s.title.clone();
    details.append(" ");
    let state_line = String::from_str("by: ").concat(s.artist.as_str());
    let large_text = String::from_str("album: ").concat(s.album.as_str());
    let status = if s.is_playing {
        String::from_str("playing")
    } else {
        String::from_str("paused")
    };
    let small_text = status.clone();
    let large_image = if cover.as_str().is_empty() {
        String::from_str("missing-cover")
    } else {
        cover.clone()
    };

    let start = if s.position <= now {
        now - s.position
    } else {
        0
    };
    let timestamps = if s.has_position && s.duration > 0 {
        if s.is_playing {
            let end = if s.duration <= u64::MAX - start {
                start + s.duration
            } else {
                u64::MAX
            };
            Timestamps::StartEnd { start, end }
        } else {
            Timestamps::StartOnly { start }
        }
    } else {
        Timestamps::EndOnly { end: start }
    };

    let mut buttons: Vec<ButtonModel> = Vec::new();
    if yt_button {
        let song_name = dash_join(s.artist.as_str(), s.title.as_str());
        let yt_url = String::from_str("https://www.youtube.com/results?search_query=").concat(
            encode_component(song_name.as_str()).as_str(),
        );
        buttons.push(
            ButtonModel { label: String::from_str("Search this song on YouTube"), url: yt_url },
        );
    }
    match lastfm_nickname {
        Option::Some(nick) => {
            let lastfm_url = String::from_str("https://www.last.fm/user/").concat(
                encode_component(nick.as_str()).as_str(),
            );
            buttons.push(
                ButtonModel {
                    label: String::from_str("Open user's last.fm profile"),
                    url: lastfm_url,
                },
            );
        },
        Option::None => {},
    }

    ActivityModel {
        details,
        state_line,
        large_image,
        small_image: status,
        large_text,
        small_text,
        timestamps,
        buttons,
    }
}

} // verus!
