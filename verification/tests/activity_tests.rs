use mpris_discord_rpc::activity::Timestamps;
use mpris_discord_rpc::activity::build_activity;
use mpris_discord_rpc::metadata::Snapshot;

fn playing_snapshot() -> Snapshot {
    Snapshot {
        title: "T".to_string(),
        artist: "A".to_string(),
        album: "Alb".to_string(),
        is_playing: true,
        position: 0,
        duration: 200,
        has_position: true,
    }
}

#[test]
fn payload_fields_follow_the_snapshot() {
    let s = playing_snapshot();
    let cover = "http://img/x.jpg".to_string();
    let now: u64 = 1_000_000;
    let a = build_activity(&s, &cover, now, false, None);
    assert_eq!(a.details, "T ");
    assert_eq!(a.state_line, "by: A");
    assert_eq!(a.large_text, "album: Alb");
    assert_eq!(a.large_image, "http://img/x.jpg");
    assert_eq!(a.small_image, "playing");
    assert_eq!(a.small_text, "playing");
    assert_eq!(a.timestamps, Timestamps::StartEnd { start: now, end: now + 200 });
    assert!(a.buttons.is_empty());
}

#[test]
fn empty_cover_falls_back_to_sentinel() {
    let s = playing_snapshot();
    let a = build_activity(&s, &String::new(), 100, false, None);
    assert_eq!(a.large_image, "missing-cover");
}

#[test]
fn paused_track_shows_start_only() {
    let mut s = playing_snapshot();
    s.is_playing = false;
    s.position = 40;
    let a = build_activity(&s, &"c".to_string(), 1000, false, None);
    assert_eq!(a.small_image, "paused");
    assert_eq!(a.timestamps, Timestamps::StartOnly { start: 960 });
}

#[test]
fn unknown_duration_suppresses_the_progress_bar() {
    let mut s = playing_snapshot();
    s.duration = 0;
    s.position = 30;
    let a = build_activity(&s, &"c".to_string(), 1000, false, None);
    assert_eq!(a.timestamps, Timestamps::EndOnly { end: 970 });
}

#[test]
fn missing_position_suppresses_the_progress_bar() {
    let mut s = playing_snapshot();
    s.has_position = false;
    s.position = 0;
    let a = build_activity(&s, &"c".to_string(), 1000, false, None);
    assert_eq!(a.timestamps, Timestamps::EndOnly { end: 1000 });
}

#[test]
fn clock_behind_the_player_floors_the_start() {
    let mut s = playing_snapshot();
    s.position = 50;
    let a = build_activity(&s, &"c".to_string(), 10, false, None);
    assert_eq!(a.timestamps, Timestamps::StartEnd { start: 0, end: 200 });
}

#[test]
fn youtube_button_searches_the_encoded_song_name() {
    let s = playing_snapshot();
    let a = build_activity(&s, &"c".to_string(), 1000, true, None);
    assert_eq!(a.buttons.len(), 1);
    assert_eq!(a.buttons[0].label, "Search this song on YouTube");
    assert_eq!(
        a.buttons[0].url,
        "https://www.youtube.com/results?search_query=A%20-%20T"
    );
}

#[test]
fn profile_button_follows_the_youtube_one() {
    let s = playing_snapshot();
    let nick = "user name".to_string();
    let a = build_activity(&s, &"c".to_string(), 1000, true, Some(&nick));
    assert_eq!(a.buttons.len(), 2);
    assert_eq!(a.buttons[1].label, "Open user's last.fm profile");
    assert_eq!(a.buttons[1].url, "https://www.last.fm/user/user%20name");
    let b = build_activity(&s, &"c".to_string(), 1000, false, Some(&nick));
    assert_eq!(b.buttons.len(), 1);
    assert_eq!(b.buttons[0].label, "Open user's last.fm profile");
}
