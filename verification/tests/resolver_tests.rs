use pickledb::PickleDb;
use pickledb::PickleDbDumpPolicy;
use pickledb::SerializationMethod;

use mpris_discord_rpc::resolver::accept_cover_text;
use mpris_discord_rpc::resolver::apply_lookup_body;
use mpris_discord_rpc::resolver::get_cover_url;
use mpris_discord_rpc::resolver::missing_cover;
use mpris_discord_rpc::resolver::request_url;

fn empty_cache() -> PickleDb {
    PickleDb::new(
        "album_cache_test.db",
        PickleDbDumpPolicy::DumpUponRequest,
        SerializationMethod::Json,
    )
}

const LOOKUP_BODY: &str =
    "{\"album\":{\"image\":[{},{},{},{\"#text\":\"http://img/x.jpg\"}]}}";

#[test]
fn sentinel_text() {
    assert_eq!(missing_cover(), "missing-cover");
}

#[test]
fn same_key_returns_previous_url_unchanged() {
    let mut db = empty_cache();
    let r = get_cover_url(
        "A - Alb",
        "A - Alb",
        "Alb",
        "http://img/prev.jpg".to_string(),
        true,
        &mut db,
        "A",
        "key",
    );
    assert_eq!(r, "http://img/prev.jpg");
}

#[test]
fn unknown_album_returns_sentinel() {
    let mut db = empty_cache();
    let r = get_cover_url(
        "A - Unknown Album",
        "",
        "Unknown Album",
        String::new(),
        true,
        &mut db,
        "A",
        "key",
    );
    assert_eq!(r, "missing-cover");
}

#[test]
fn lookup_body_is_extracted_trimmed_and_cached() {
    let mut db = empty_cache();
    let body = LOOKUP_BODY.to_string();
    let (r, stored) = apply_lookup_body("A - Alb", &body, true, &mut db);
    assert_eq!(r, "http://img/x.jpg");
    assert!(stored);
    let cached: Option<String> = db.get("A - Alb");
    assert_eq!(cached, Some("http://img/x.jpg".to_string()));
}

#[test]
fn second_resolution_is_answered_from_the_cache() {
    let mut db = empty_cache();
    let body = LOOKUP_BODY.to_string();
    let (first, stored) = apply_lookup_body("A - Alb", &body, true, &mut db);
    assert!(stored);
    let second = get_cover_url(
        "A - Alb",
        "B - Other",
        "Alb",
        String::new(),
        true,
        &mut db,
        "A",
        "key",
    );
    assert_eq!(second, first);
}

#[test]
fn cache_disabled_stores_nothing() {
    let mut db = empty_cache();
    let body = LOOKUP_BODY.to_string();
    let (r, stored) = apply_lookup_body("A - Alb", &body, false, &mut db);
    assert_eq!(r, "http://img/x.jpg");
    assert!(!stored);
    let cached: Option<String> = db.get("A - Alb");
    assert_eq!(cached, None);
}

#[test]
fn short_cached_value_is_not_a_hit() {
    let mut db = empty_cache();
    db.set("A - Alb", &"x.com".to_string()).unwrap();
    let r = get_cover_url(
        "A - Alb",
        "B - Other",
        "Alb",
        String::new(),
        true,
        &mut db,
        "A",
        "key",
    );
    assert_eq!(r, "missing-cover");
}

#[test]
fn missing_image_entry_collapses_to_sentinel() {
    let mut db = empty_cache();
    let body = "{\"album\":{\"image\":[]}}".to_string();
    let (r, stored) = apply_lookup_body("A - Alb", &body, true, &mut db);
    assert_eq!(r, "missing-cover");
    assert!(!stored);
    let cached: Option<String> = db.get("A - Alb");
    assert_eq!(cached, None);
}

#[test]
fn malformed_body_collapses_to_sentinel() {
    let mut db = empty_cache();
    let body = "not json at all".to_string();
    let (r, stored) = apply_lookup_body("A - Alb", &body, true, &mut db);
    assert_eq!(r, "missing-cover");
    assert!(!stored);
}

#[test]
fn short_extracted_value_is_rejected() {
    let accepted = accept_cover_text(&"\"abc\"".to_string());
    assert_eq!(accepted, None);
    let accepted = accept_cover_text(&String::new());
    assert_eq!(accepted, None);
    let accepted = accept_cover_text(&"\"http://img/x.jpg\"".to_string());
    assert_eq!(accepted, Some("http://img/x.jpg".to_string()));
}

#[test]
fn request_url_percent_encodes_its_parts() {
    let url = request_url("A B", "C&D", "key");
    assert_eq!(
        url,
        "http://ws.audioscrobbler.com/2.0/?method=album.getinfo&api_key=key&artist=A%20B&album=C%26D&autocorrect=0&format=json"
    );
}

#[test]
fn guard_counts_bytes_not_characters() {
    let text = format!("\"{}{}{}\"", '\u{e9}', '\u{e9}', '\u{e9}');
    let accepted = accept_cover_text(&text);
    assert_eq!(accepted, Some("\u{e9}\u{e9}\u{e9}".to_string()));
}
