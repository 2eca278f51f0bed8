use vstd::prelude::*;
use vstd::string::StringExecFns;

use crate::metadata::Snapshot;
use crate::metadata::snapshot_unusable;
use crate::strutil::str_eq;

verus! {

/// What the loop remembers of the last successfully published snapshot.
pub struct TrackState {
    pub last_title: String,
    pub last_album: String,
    pub last_artist: String,
    pub last_album_id: String,
    pub last_position: u64,
    pub last_is_playing: bool,
    pub cover_url: String,
}

impl TrackState {
    /// The state before anything has been published.
    pub fn new() -> (t: TrackState)
        ensures
            t.last_title@ == Seq::<char>::empty(),
            t.last_album@ == Seq::<char>::empty(),
            t.last_artist@ == Seq::<char>::empty(),
            t.last_album_id@ == Seq::<char>::empty(),
            t.last_position == 0,
            t.last_is_playing == false,
            t.cover_url@ == Seq::<char>::empty(),
    {
        TrackState {
            last_title: String::new(),
            last_album: String::new(),
            last_artist: String::new(),
            last_album_id: String::new(),
            last_position: 0,
            last_is_playing: false,
            cover_url: String::new(),
        }
    }
}

/// Lifecycle flags of the presence connection: whether the first `connect` is still
/// owed, whether an error path skipped a publish since the last success, and whether
/// an activity is currently published.
#[derive(Clone, Copy, PartialEq, Eq, Structural, Debug)]
pub struct LinkState {
    pub is_first_time: bool,
    pub is_interrupted: bool,
    pub is_activity_set: bool,
}

impl LinkState {
    /// The state at process start: nothing connected, nothing published.
    pub fn new() -> (l: LinkState)
        ensures
            l == (LinkState { is_first_time: true, is_interrupted: false, is_activity_set: false }),
    {
        LinkState { is_first_time: true, is_interrupted: false, is_activity_set: false }
    }
}

/// The last reported player-lookup condition.
#[derive(Clone, Copy, PartialEq, Eq, Structural, Debug)]
pub enum PlayerNotif {
    Initial,
    Found,
    Missing,
}

/// Which failure conditions have already been reported, so that a sustained outage
/// is logged once per streak instead of once per poll.
#[derive(Clone, Copy, PartialEq, Eq, Structural, Debug)]
pub struct SuppressState {
    pub bus_failed: bool,
    pub player: PlayerNotif,
    pub discord_failed: bool,
}

impl SuppressState {
    /// The state at process start: nothing reported yet.
    pub fn new() -> (n: SuppressState)
        ensures
            n == (SuppressState {
                bus_failed: false,
                player: PlayerNotif::Initial,
                discord_failed: false,
            }),
    {
        SuppressState { bus_failed: false, player: PlayerNotif::Initial, discord_failed: false }
    }
}

/// A user-facing line the loop may emit on a state transition.
#[derive(Clone, Copy, PartialEq, Eq, Structural, Debug)]
pub enum LogEvent {
    BusUnavailable,
    PlayerFound,
    PlayerMissing,
    Connected,
    ConnectFailed,
    Reconnected,
    ReconnectFailed,
}

/// Outcome of a bus acquisition: the new suppression state and whether the failure
/// is to be reported (only on entering the condition).
pub open spec fn bus_step(n: SuppressState, connected: bool) -> (SuppressState, Option<LogEvent>) {
    (
        SuppressState { bus_failed: !connected, ..n },
        if !connected && !n.bus_failed {
            Option::Some(LogEvent::BusUnavailable)
        } else {
            Option::None
        },
    )
}

/// Record a bus acquisition outcome; a failure is reported once per streak.
pub fn on_bus(n: &mut SuppressState, connected: bool) -> (log: Option<LogEvent>)
    ensures
        (*final(n), log) == bus_step(*old(n), connected),
{
    let log: Option<LogEvent> = if !connected && !n.bus_failed {
        Option::Some(LogEvent::BusUnavailable)
    } else {
        Option::None
    };
    n.bus_failed = !connected;
    log
}

/// Outcome of a player lookup: found resets the missing streak; a miss marks the
/// loop interrupted, re-arms the peer report, and is itself reported once per streak.
pub open spec fn player_step(n: SuppressState, link: LinkState, found: bool) -> (
    SuppressState,
    LinkState,
    Option<LogEvent>,
) {
    if found {
        (
            SuppressState { player: PlayerNotif::Found, ..n },
            link,
            if n.player != PlayerNotif::Found {
                Option::Some(LogEvent::PlayerFound)
            } else {
                Option::None
            },
        )
    } else {
        (
            SuppressState {
                player: PlayerNotif::Missing,
                discord_failed: if n.player != PlayerNotif::Missing {
                    false
                } else {
                    n.discord_failed
                },
                ..n
            },
            LinkState { is_interrupted: true, ..link },
            if n.player != PlayerNotif::Missing {
                Option::Some(LogEvent::PlayerMissing)
            } else {
                Option::None
            },
        )
    }
}

/// Record a player lookup outcome.
pub fn on_player(n: &mut SuppressState, link: &mut LinkState, found: bool) -> (log: Option<
    LogEvent,
>)
    ensures
        (*final(n), *final(link), log) == player_step(*old(n), *old(link), found),
{
    if found {
        let log: Option<LogEvent> = if n.player != PlayerNotif::Found {
            Option::Some(LogEvent::PlayerFound)
        } else {
            Option::None
        };
        n.player = PlayerNotif::Found;
        log
    } else {
        let log: Option<LogEvent> = if n.player != PlayerNotif::Missing {
            Option::Some(LogEvent::PlayerMissing)
        } else {
            Option::None
        };
        if n.player != PlayerNotif::Missing {
            n.discord_failed = false;
        }
        n.player = PlayerNotif::Missing;
        link.is_interrupted = true;
        log
    }
}

/// Outcome of a presence connect or reconnect attempt. The first success uses up the
/// one-shot `connect`; a reconnect success marks the loop interrupted so the next
/// snapshot is republished; failures are reported once per streak.
pub open spec fn connect_step(n: SuppressState, link: LinkState, ok: bool) -> (
    SuppressState,
    LinkState,
    Option<LogEvent>,
) {
    if link.is_first_time {
        if ok {
            (
                SuppressState { discord_failed: false, ..n },
                LinkState { is_first_time: false, ..link },
                Option::Some(LogEvent::Connected),
            )
        } else {
            (
                SuppressState { discord_failed: true, ..n },
                link,
                if !n.discord_failed {
                    Option::Some(LogEvent::ConnectFailed)
                } else {
                    Option::None
                },
            )
        }
    } else {
        if ok {
            (
                SuppressState { discord_failed: false, ..n },
                LinkState { is_interrupted: true, ..link },
                if n.discord_failed {
                    Option::Some(LogEvent::Reconnected)
                } else {
                    Option::None
                },
            )
        } else {
            (
                SuppressState { discord_failed: true, ..n },
                link,
                if !n.discord_failed {
                    Option::Some(LogEvent::ReconnectFailed)
                } else {
                    Option::None
                },
            )
        }
    }
}

/// Record a presence connect or reconnect outcome.
pub fn on_connect(n: &mut SuppressState, link: &mut LinkState, ok: bool) -> (log: Option<LogEvent>)
    ensures
        (*final(n), *final(link), log) == connect_step(*old(n), *old(link), ok),
{
    if link.is_first_time {
        if ok {
            n.discord_failed = false;
            link.is_first_time = false;
            Option::Some(LogEvent::Connected)
        } else {
            let log: Option<LogEvent> = if !n.discord_failed {
                Option::Some(LogEvent::ConnectFailed)
            } else {
                Option::None
            };
            n.discord_failed = true;
            log
        }
    } else {
        if ok {
            let log: Option<LogEvent> = if n.discord_failed {
                Option::Some(LogEvent::Reconnected)
            } else {
                Option::None
            };
            n.discord_failed = false;
            link.is_interrupted = true;
            log
        } else {
            let log: Option<LogEvent> = if !n.discord_failed {
                Option::Some(LogEvent::ReconnectFailed)
            } else {
                Option::None
            };
            n.discord_failed = true;
            log
        }
    }
}

/// What an iteration decides to do with a snapshot.
#[derive(Clone, Copy, PartialEq, Eq, Structural, Debug)]
pub enum Verdict {
    Skip,
    Unchanged,
    Publish,
}

/// Whether the snapshot differs from the recorded one in title, album, artist or
/// playing flag, or its position moved backwards (the repeat heuristic).
pub open spec fn spec_changed(t: TrackState, s: Snapshot) -> bool {
    ||| s.title@ != t.last_title@
    ||| s.album@ != t.last_album@
    ||| s.artist@ != t.last_artist@
    ||| s.is_playing != t.last_is_playing
    ||| s.position < t.last_position
}

/// The verdict on a snapshot: unusable ones are skipped; an unchanged one is
/// republished only while an interruption is pending.
pub open spec fn spec_verdict(t: TrackState, link: LinkState, s: Snapshot) -> Verdict {
    if snapshot_unusable(s) {
        Verdict::Skip
    } else if !spec_changed(t, s) && !link.is_interrupted {
        Verdict::Unchanged
    } else {
        Verdict::Publish
    }
}

/// Decide whether a snapshot is skipped, left as-is, or published.
pub fn evaluate_snapshot(t: &TrackState, link: &LinkState, s: &Snapshot) -> (v: Verdict)
    ensures
        v == spec_verdict(*t, *link, *s),
{
    if crate::metadata::is_unusable(s) {
        return Verdict::Skip;
    }
    let changed = !str_eq(s.title.as_str(), t.last_title.as_str()) || !str_eq(
        s.album.as_str(),
        t.last_album.as_str(),
    ) || !str_eq(s.artist.as_str(), t.last_artist.as_str()) || s.is_playing != t.last_is_playing
        || s.position < t.last_position;
    if !changed && !link.is_interrupted {
        Verdict::Unchanged
    } else {
        Verdict::Publish
    }
}

/// Record a publish outcome. Success makes the snapshot the new reference and clears
/// the dirty flag; failure leaves the reference untouched and marks the loop
/// interrupted, with nothing published any more.
pub fn commit_publish(
    t: &mut TrackState,
    link: &mut LinkState,
    s: &Snapshot,
    album_id: String,
    cover: String,
    published: bool,
)
    ensures
        published ==> {
            &&& final(t).last_title@ == s.title@
            &&& final(t).last_album@ == s.album@
            &&& final(t).last_artist@ == s.artist@
            &&& final(t).last_album_id@ == album_id@
            &&& final(t).last_position == s.position
            &&& final(t).last_is_playing == s.is_playing
            &&& final(t).cover_url@ == cover@
            &&& *final(link) == (LinkState {
                is_interrupted: false,
                is_activity_set: true,
                ..*old(link)
            })
        },
        !published ==> {
            &&& *final(t) == *old(t)
            &&& *final(link) == (LinkState {
                is_interrupted: true,
                is_activity_set: false,
                ..*old(link)
            })
        },
{
    if published {
        t.last_title = s.title.clone();
        t.last_album = s.album.clone();
        t.last_artist = s.artist.clone();
        t.last_album_id = album_id;
        t.last_position = s.position;
        t.last_is_playing = s.is_playing;
        t.cover_url = cover;
        link.is_interrupted = false;
        link.is_activity_set = true;
    } else {
        link.is_interrupted = true;
        link.is_activity_set = false;
    }
}

/// The poll interval: the user's choice, defaulted and floor-clamped.
pub open spec fn clamped_interval(requested: Option<u64>) -> u64 {
    match requested {
        Option::Some(v) => if v < 5 {
            5u64
        } else {
            v
        },
        Option::None => 10u64,
    }
}

/// Default a missing interval to 10 seconds and clamp the rest to at least 5.
pub fn clamp_interval(requested: Option<u64>) -> (r: u64)
    ensures
        r == clamped_interval(requested),
{
    match requested {
        Option::Some(v) => if v < 5 {
            5
        } else {
            v
        },
        Option::None => 10,
    }
}

/// A snapshot that repeats the published title, album, artist and playing flag
/// without the position moving backwards is never republished while no
/// interruption is pending.
pub proof fn lemma_no_republish(t: TrackState, link: LinkState, s1: Snapshot, s2: Snapshot)
    requires
        !link.is_interrupted,
        t.last_title@ == s1.title@,
        t.last_album@ == s1.album@,
        t.last_artist@ == s1.artist@,
        t.last_is_playing == s1.is_playing,
        t.last_position == s1.position,
        s2.title@ == s1.title@,
        s2.album@ == s1.album@,
        s2.artist@ == s1.artist@,
        s2.is_playing == s1.is_playing,
        s2.position >= s1.position,
    ensures
        spec_verdict(t, link, s2) != Verdict::Publish,
{
}

/// Any change of title, album, artist or playing flag, and any backwards move of
/// the position, forces a usable snapshot to be published.
pub proof fn lemma_change_is_published(t: TrackState, link: LinkState, s: Snapshot)
    requires
        !snapshot_unusable(s),
        spec_changed(t, s),
    ensures
        spec_verdict(t, link, s) == Verdict::Publish,
{
}

/// A player lookup that fails on three consecutive polls reports the missing
/// player exactly once, on the first of them.
pub proof fn lemma_player_missing_logged_once(n0: SuppressState, l0: LinkState)
    requires
        n0.player != PlayerNotif::Missing,
    ensures
        ({
            let (n1, l1, g1) = player_step(n0, l0, false);
            let (n2, l2, g2) = player_step(n1, l1, false);
            let (n3, l3, g3) = player_step(n2, l2, false);
            &&& g1 == Option::Some(LogEvent::PlayerMissing)
            &&& g2 is None
            &&& g3 is None
        }),
{
}

} // verus!
