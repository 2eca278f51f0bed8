use vstd::prelude::*;
use vstd::string::StrSliceExecFns;
use vstd::string::StringExecFns;

use pickledb::PickleDb;

use crate::cache::cache_entries;
use crate::cache::cache_lookup;
use crate::cache::cache_store;
use crate::cache::dump_safe;
use crate::metadata::unknown_album_text;
use crate::strutil::byte_len;
use crate::strutil::lemma_long_bytes_two_chars;
use crate::strutil::str_byte_len;
use crate::strutil::str_eq;
use crate::urltext::encode_component;
use crate::urltext::url_encoded;

verus! {

/// The sentinel standing in for a cover image when none could be resolved.
pub open spec fn missing_cover_text() -> Seq<char> {
    "missing-cover"@
}

/// The missing-cover sentinel as a value.
pub fn missing_cover() -> (s: String)
    ensures
        s@ == missing_cover_text(),
{
    String::from_str("missing-cover")
}

/// The remote lookup address for an album: artist and album percent-encoded into
/// the album-info query.
pub open spec fn lookup_url_text(artist: Seq<char>, album: Seq<char>, api_key: Seq<char>) -> Seq<
    char,
> {
    "http://ws.audioscrobbler.com/2.0/?method=album.getinfo&api_key="@ + api_key + "&artist="@
        + url_encoded(artist) + "&album="@ + url_encoded(album) + "&autocorrect=0&format=json"@
}

/// Build the remote lookup address for an album.
pub fn request_url(artist: &str, album: &str, api_key: &str) -> (r: String)
    ensures
        r@ == lookup_url_text(artist@, album@, api_key@),
{
    let mut r = String::from_str(
        "http://ws.audioscrobbler.com/2.0/?method=album.getinfo&api_key=",
    );
    r.append(api_key);
    r.append("&artist=");
    let encoded_artist = encode_component(artist);
    r.append(encoded_artist.as_str());
    r.append("&album=");
    let encoded_album = encode_component(album);
    r.append(encoded_album.as_str());
    r.append("&autocorrect=0&format=json");
    r
}

#[verifier::external_type_specification]
#[verifier::external_body]
pub struct ExResponse(reqwest::blocking::Response);

/// Relies on reqwest::blocking::get: one synchronous HTTP GET with the blocking
/// client's default timeout; failures are returned as `None`, never thrown. The
/// outcome depends on the network, so nothing is promised of it. The blocking
/// client panics when invoked from inside an async runtime; this library is
/// synchronous throughout, and so must its callers be.
#[verifier::external_body]
fn http_get(url: &String) -> (r: Option<reqwest::blocking::Response>)
{
    reqwest::blocking::get(url.as_str()).ok()
}

/// Relies on reqwest::blocking::Response::text: reads the whole body as text. The
/// outcome depends on the network, so nothing is promised of it.
#[verifier::external_body]
fn response_body(r: reqwest::blocking::Response) -> (t: Option<String>)
{
    r.text().ok()
}

/// What the lookup response body yields for the cover link; a pure function of the
/// body text, left uninterpreted.
pub uninterp spec fn cover_text_of(body: Seq<char>) -> Seq<char>;

/// Relies on serde_json::from_str, serde_json::Value's Index impls and its
/// Display-backed to_string: renders the "album" → "image" → 3 → "#text" entry of
/// the parsed body (a string is rendered with its quotes, an absent path as "null"),
/// or the empty string when the body is not JSON. The result depends on the body
/// text alone.
#[verifier::external_body]
fn extract_cover_text(body: &String) -> (r: String)
    ensures
        r@ == cover_text_of(body@),
{
    match serde_json::from_str::<serde_json::Value>(body.as_str()) {
        Ok(data) => data["album"]["image"][3]["#text"].to_string(),
        Err(_) => String::new(),
    }
}

/// A rendered cover entry is usable only when longer than the five-byte guard
/// against empty or malformed values; the serializer's enclosing quotes are trimmed.
pub fn accept_cover_text(text: &String) -> (r: Option<String>)
    ensures
        (r is Some) == (byte_len(text@) > 5),
        r matches Option::Some(u) ==> u@ == text@.subrange(1, text@.len() - 1),
{
    let bytes = str_byte_len(text.as_str());
    if bytes > 5 {
        proof {
            lemma_long_bytes_two_chars(text@);
        }
        let n = text.as_str().unicode_len();
        let stripped = text.as_str().substring_char(1, n - 1);
        Option::Some(String::from_str(stripped))
    } else {
        Option::None
    }
}

/// Digest one lookup response body: extract the cover entry, trim and validate it,
/// and, when caching, store it under the album key before returning it; an unusable
/// entry collapses to the sentinel and leaves the cache untouched. The second
/// component reports whether the mapping was persisted, so a caller can tell a
/// stored mapping from one the cache write dropped.
pub fn apply_lookup_body(
    album_id: &str,
    body: &String,
    cache_enabled: bool,
    album_cache: &mut PickleDb,
) -> (r: (String, bool))
    requires
        cache_enabled ==> dump_safe(*old(album_cache)),
    ensures
        ({
            let t = cover_text_of(body@);
            &&& (byte_len(t) > 5 ==> {
                &&& r.0@ == t.subrange(1, t.len() - 1)
                &&& (r.1 ==> cache_enabled && cache_entries(*final(album_cache)) == cache_entries(
                    *old(album_cache),
                ).insert(album_id@, r.0@))
                &&& (!r.1 ==> cache_entries(*final(album_cache)) == cache_entries(
                    *old(album_cache),
                ))
            })
            &&& (byte_len(t) <= 5 ==> r.0@ == missing_cover_text() && !r.1 && cache_entries(
                *final(album_cache),
            ) == cache_entries(*old(album_cache)))
        }),
{
    let text = extract_cover_text(body);
    match accept_cover_text(&text) {
        Option::Some(url) => {
            let stored = if cache_enabled {
                cache_store(album_cache, album_id, &url)
            } else {
                false
            };
            (url, stored)
        },
        Option::None => (missing_cover(), false),
    }
}

/// How one resolution is answered, in the order the steps are tried: the repeated
/// key from the previous url, an unidentifiable album by the sentinel, a valid cache
/// hit from the cache, and only the rest by the remote lookup.
pub enum ResolvePlan {
    UsePrevious,
    UseSentinel,
    UseCached,
    FetchRemote,
}

/// The plan a resolution follows, as a function of its inputs and the cache contents.
pub open spec fn resolve_plan(
    current: Seq<char>,
    previous: Seq<char>,
    album: Seq<char>,
    cache_enabled: bool,
    cache: Map<Seq<char>, Seq<char>>,
) -> ResolvePlan {
    if current == previous {
        ResolvePlan::UsePrevious
    } else if album == unknown_album_text() {
        ResolvePlan::UseSentinel
    } else if cache_enabled && cache.contains_key(current) && byte_len(cache[current]) > 5 {
        ResolvePlan::UseCached
    } else {
        ResolvePlan::FetchRemote
    }
}

/// Resolve the cover image for the current album: the previous url while the album
/// key is unchanged, the sentinel for an unknown album, a valid cached value when
/// caching is on, and otherwise one remote lookup whose usable result is cached and
/// returned, and whose every failure collapses to the sentinel.
pub fn get_cover_url(
    album_id: &str,
    last_album_id: &str,
    album: &str,
    cover_url: String,
    cache_enabled: bool,
    album_cache: &mut PickleDb,
    artist: &str,
    lastfm_api_key: &str,
) -> (r: String)
    requires
        cache_enabled ==> dump_safe(*old(album_cache)),
    ensures
        ({
            let plan = resolve_plan(
                album_id@,
                last_album_id@,
                album@,
                cache_enabled,
                cache_entries(*old(album_cache)),
            );
            &&& (plan is UsePrevious ==> r@ == cover_url@ && cache_entries(*final(album_cache))
                == cache_entries(*old(album_cache)))
            &&& (plan is UseSentinel ==> r@ == missing_cover_text() && cache_entries(
                *final(album_cache),
            ) == cache_entries(*old(album_cache)))
            &&& (plan is UseCached ==> r@ == cache_entries(*old(album_cache))[album_id@]
                && cache_entries(*final(album_cache)) == cache_entries(*old(album_cache)))
            &&& (plan is FetchRemote ==> ({
                &&& (cache_entries(*final(album_cache)) == cache_entries(*old(album_cache))
                    || (cache_enabled && cache_entries(*final(album_cache)) == cache_entries(
                    *old(album_cache),
                ).insert(album_id@, r@)))
                &&& (!cache_enabled ==> cache_entries(*final(album_cache)) == cache_entries(
                    *old(album_cache),
                ))
            }))
        }),
{
    if str_eq(album_id, last_album_id) {
        return cover_url;
    }
    if str_eq(album, "Unknown Album") {
        return missing_cover();
    }
    if cache_enabled {
        match cache_lookup(album_cache, album_id) {
            Option::Some(url) => {
                if str_byte_len(url.as_str()) > 5 {
                    return url;
                }
            },
            Option::None => {},
        }
    }
    let req = request_url(artist, album, lastfm_api_key);
    match http_get(&req) {
        Option::Some(resp) => match response_body(resp) {
            Option::Some(body) => {
                let (cover, _stored) = apply_lookup_body(
                    album_id,
                    &body,
                    cache_enabled,
                    album_cache,
                );
                cover
            },
            Option::None => missing_cover(),
        },
        Option::None => missing_cover(),
    }
}

/// With caching enabled, resolving the same album a second time never reaches the
/// remote lookup: a repeated key is answered from the previous url, and a fresh
/// state whose cache holds a valid value for the key is answered from the cache.
pub proof fn lemma_second_resolve_no_fetch(
    current: Seq<char>,
    previous: Seq<char>,
    album: Seq<char>,
    cache: Map<Seq<char>, Seq<char>>,
)
    requires
        current == previous || (cache.contains_key(current) && byte_len(cache[current]) > 5
            && album != unknown_album_text()),
    ensures
        !(resolve_plan(current, previous, album, true, cache) is FetchRemote),
        current != previous ==> resolve_plan(current, previous, album, true, cache) is UseCached,
{
}

/// An album still carrying the unknown-album placeholder is answered with the
/// sentinel and never by the remote lookup, whenever its key is not simply repeating
/// the previous poll's.
pub proof fn lemma_unknown_album_sentinel(
    current: Seq<char>,
    previous: Seq<char>,
    cache_enabled: bool,
    cache: Map<Seq<char>, Seq<char>>,
)
    requires
        current != previous,
    ensures
        resolve_plan(current, previous, unknown_album_text(), cache_enabled, cache)
            is UseSentinel,
{
}

} // verus!
