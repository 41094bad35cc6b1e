//! Field-level decoding rules and the keyed-content extractor.

use lastfm::json::{FromJson, Json};
use lastfm::page::attributes::Attributes;
use lastfm::page::serde::PageSeed;
use lastfm::page::Page;
use lastfm::types::image::{Image, ImageSize};
use lastfm::types::track::Track;
use lastfm::types::user::{Friend, User};
use lastfm::types::{bool_from_str, bool_from_strnum, str_to_i64, str_to_u32, trim_str};
use lastfm::error::Error;

fn key(k: &str, v: Json) -> (String, Json) {
    (k.to_string(), v)
}

fn js(s: &str) -> Json {
    Json::Str(s.to_string())
}

fn attr_block(page: &str, total_pages: &str, per_page: &str, total: &str) -> Json {
    Json::Obj(vec![
        key("page", js(page)),
        key("totalPages", js(total_pages)),
        key("perPage", js(per_page)),
        key("total", js(total)),
    ])
}

fn track_json(name: &str) -> Json {
    Json::Obj(vec![
        key(
            "artist",
            Json::Obj(vec![
                key("name", js("Some Artist")),
                key("image", Json::Arr(vec![])),
                key("mbid", js("")),
            ]),
        ),
        key(
            "album",
            Json::Obj(vec![key("#text", js("Some Album")), key("mbid", js("  abc-123 "))]),
        ),
        key("name", js(name)),
        key("url", js("https://example.com/track")),
        key(
            "image",
            Json::Arr(vec![Json::Obj(vec![
                key("size", js("small")),
                key("url", js("https://example.com/i.png")),
            ])]),
        ),
        key("mbid", js("")),
        key("streamable", js("0")),
        key("loved", js("1")),
        key("played_at", Json::Obj(vec![key("uts", js("1700000000"))])),
    ])
}

#[test]
fn attributes_round_trip() {
    let doc = Json::Obj(vec![
        key("page", js("2")),
        key("totalPages", js("5")),
        key("perPage", js("50")),
        key("total", js("230")),
    ]);
    let a = Attributes::from_json(&doc).expect("attributes must decode");
    assert_eq!(
        a,
        Attributes { total_pages: 5, page: 2, per_page: 50, total: 230 }
    );
}

#[test]
fn attributes_missing_field_fails() {
    let doc = Json::Obj(vec![
        key("page", js("2")),
        key("totalPages", js("5")),
        key("perPage", js("50")),
    ]);
    assert!(Attributes::from_json(&doc).is_none());
}

#[test]
fn attributes_non_numeric_fails() {
    let doc = Json::Obj(vec![
        key("page", js("two")),
        key("totalPages", js("5")),
        key("perPage", js("50")),
        key("total", js("230")),
    ]);
    assert!(Attributes::from_json(&doc).is_none());
}

#[test]
fn attributes_numeric_value_fails() {
    // The wire quirk: the numbers travel as strings, a real number is not
    // accepted.
    let doc = Json::Obj(vec![
        key("page", Json::UInt(2)),
        key("totalPages", js("5")),
        key("perPage", js("50")),
        key("total", js("230")),
    ]);
    assert!(Attributes::from_json(&doc).is_none());
}

#[test]
fn bool_coercion_true_forms() {
    for s in ["1", "true", "t", "yes", "y", "TRUE", "T", "Yes", "Y", "tRuE", "yES"] {
        assert_eq!(bool_from_str(s), Some(true), "{s:?} should be true");
    }
}

#[test]
fn bool_coercion_false_forms() {
    for s in ["0", "false", "f", "no", "n", "FALSE", "F", "No", "N", "fAlSe"] {
        assert_eq!(bool_from_str(s), Some(false), "{s:?} should be false");
    }
}

#[test]
fn bool_coercion_rejects_other_strings() {
    // only the listed strings coerce: padded variants are no booleans
    // either
    for s in ["2", "", " ", "ja", "truee", "yess", "10", " true ", "1 ", " 0", "\tno\n"] {
        assert_eq!(bool_from_str(s), None, "{s:?} should not coerce");
    }
}

#[test]
fn bool_from_strnum_requires_a_string() {
    assert_eq!(bool_from_strnum(&Json::Bool(true)), None);
    assert_eq!(bool_from_strnum(&Json::UInt(1)), None);
    assert_eq!(bool_from_strnum(&js("yes")), Some(true));
}

#[test]
fn trim_removes_surrounding_whitespace() {
    assert_eq!(trim_str("  a b \t"), "a b");
    assert_eq!(trim_str("\u{a0}x\u{3000}"), "x");
    assert_eq!(trim_str("   "), "");
    assert_eq!(trim_str(""), "");
}

#[test]
fn u32_parsing() {
    assert_eq!(str_to_u32("0"), Some(0));
    assert_eq!(str_to_u32("230"), Some(230));
    assert_eq!(str_to_u32("007"), Some(7));
    assert_eq!(str_to_u32("+42"), Some(42));
    assert_eq!(str_to_u32("4294967295"), Some(u32::MAX));
    assert_eq!(str_to_u32("4294967296"), None);
    assert_eq!(str_to_u32("99999999999999999999999"), None);
    assert_eq!(str_to_u32(""), None);
    assert_eq!(str_to_u32("+"), None);
    assert_eq!(str_to_u32("-1"), None);
    assert_eq!(str_to_u32(" 5"), None);
    assert_eq!(str_to_u32("1e3"), None);
}

#[test]
fn i64_parsing() {
    assert_eq!(str_to_i64("1700000000"), Some(1_700_000_000));
    assert_eq!(str_to_i64("-5"), Some(-5));
    assert_eq!(str_to_i64("+5"), Some(5));
    assert_eq!(str_to_i64("9223372036854775807"), Some(i64::MAX));
    assert_eq!(str_to_i64("9223372036854775808"), None);
    assert_eq!(str_to_i64("-9223372036854775808"), Some(i64::MIN));
    assert_eq!(str_to_i64("-9223372036854775809"), None);
    assert_eq!(str_to_i64(""), None);
    assert_eq!(str_to_i64("-"), None);
    assert_eq!(str_to_i64("12a"), None);
}

#[test]
fn image_size_decodes_exact_names() {
    assert_eq!(ImageSize::from_json(&js("small")), Some(ImageSize::Small));
    assert_eq!(ImageSize::from_json(&js("medium")), Some(ImageSize::Medium));
    assert_eq!(ImageSize::from_json(&js("large")), Some(ImageSize::Large));
    assert_eq!(ImageSize::from_json(&js("extralarge")), Some(ImageSize::ExtraLarge));
    assert_eq!(ImageSize::from_json(&js("Small")), None);
    assert_eq!(ImageSize::from_json(&js("huge")), None);
}

#[test]
fn image_url_is_optional() {
    let with = Json::Obj(vec![key("size", js("large")), key("url", js("https://x.example/i"))]);
    let without = Json::Obj(vec![key("size", js("large"))]);
    let null = Json::Obj(vec![key("size", js("large")), key("url", Json::Null)]);
    let bad = Json::Obj(vec![key("size", js("large")), key("url", Json::UInt(3))]);
    assert_eq!(
        Image::from_json(&with),
        Some(Image { size: ImageSize::Large, url: Some("https://x.example/i".to_string()) })
    );
    assert_eq!(Image::from_json(&without), Some(Image { size: ImageSize::Large, url: None }));
    assert_eq!(Image::from_json(&null), Some(Image { size: ImageSize::Large, url: None }));
    assert_eq!(Image::from_json(&bad), None);
}

#[test]
fn track_decodes_with_field_rules() {
    let t = Track::from_json(&track_json("Song A")).expect("track must decode");
    assert_eq!(t.name, "Song A");
    assert_eq!(t.artist.name, "Some Artist");
    // an empty mbid is trimmed away, a non-empty one is trimmed and kept
    assert_eq!(t.musicbrainz_id, None);
    assert_eq!(t.artist.musicbrainz_id, None);
    assert_eq!(t.album.musicbrainz_id, Some("abc-123".to_string()));
    assert_eq!(t.album.title, "Some Album");
    assert!(!t.streamable);
    assert!(t.loved);
    assert_eq!(t.played_at, Some(1_700_000_000));
    assert!(!t.now_playing);
    assert_eq!(t.image.len(), 1);
    assert_eq!(t.image[0].size, ImageSize::Small);
}

#[test]
fn track_rejects_invalid_url() {
    let mut entries = match track_json("Song A") {
        Json::Obj(e) => e,
        _ => unreachable!(),
    };
    for pair in entries.iter_mut() {
        if pair.0 == "url" {
            pair.1 = js("::not a url::");
        }
    }
    assert!(Track::from_json(&Json::Obj(entries)).is_none());
}

#[test]
fn track_now_playing_marker() {
    let mut entries = match track_json("Song A") {
        Json::Obj(e) => e,
        _ => unreachable!(),
    };
    entries.push(key("@attr", Json::Obj(vec![key("nowplaying", js(" TRUE "))])));
    let t = Track::from_json(&Json::Obj(entries)).expect("track must decode");
    assert!(t.now_playing);

    let mut entries = match track_json("Song B") {
        Json::Obj(e) => e,
        _ => unreachable!(),
    };
    entries.push(key("@attr", Json::Obj(vec![key("nowplaying", js("1"))])));
    let t = Track::from_json(&Json::Obj(entries)).expect("track must decode");
    // unlike the boolean coercion of ordinary fields, the marker does not
    // accept "1"
    assert!(!t.now_playing);
}

fn track_without_played_at() -> Vec<(String, Json)> {
    let mut entries = match track_json("Song A") {
        Json::Obj(e) => e,
        _ => unreachable!(),
    };
    entries.retain(|p| p.0 != "played_at");
    entries
}

#[test]
fn track_played_at_rules() {
    let t = Track::from_json(&Json::Obj(track_without_played_at())).expect("track must decode");
    assert_eq!(t.played_at, None);

    let mut entries = track_without_played_at();
    entries.push(key("played_at", Json::Obj(vec![key("uts", Json::UInt(123))])));
    let t = Track::from_json(&Json::Obj(entries)).expect("track must decode");
    assert_eq!(t.played_at, Some(123));

    let mut entries = track_without_played_at();
    entries.push(key("played_at", Json::Obj(vec![key("uts", js("not-a-number"))])));
    assert!(Track::from_json(&Json::Obj(entries)).is_none());
}

#[test]
fn track_played_at_calendar_range() {
    // the last and first representable calendar seconds are kept
    let mut entries = track_without_played_at();
    entries.push(key("played_at", Json::Obj(vec![key("uts", js("8210266876799"))])));
    let t = Track::from_json(&Json::Obj(entries)).expect("track must decode");
    assert_eq!(t.played_at, Some(8_210_266_876_799));

    let mut entries = track_without_played_at();
    entries.push(key("played_at", Json::Obj(vec![key("uts", js("-8334601228800"))])));
    let t = Track::from_json(&Json::Obj(entries)).expect("track must decode");
    assert_eq!(t.played_at, Some(-8_334_601_228_800));

    // a second past either end names no calendar date: the track decodes
    // with no timestamp rather than failing
    let mut entries = track_without_played_at();
    entries.push(key("played_at", Json::Obj(vec![key("uts", js("8210266876800"))])));
    let t = Track::from_json(&Json::Obj(entries)).expect("track must decode");
    assert_eq!(t.played_at, None);

    let mut entries = track_without_played_at();
    entries.push(key("played_at", Json::Obj(vec![key("uts", Json::Int(-8_334_601_228_801))])));
    let t = Track::from_json(&Json::Obj(entries)).expect("track must decode");
    assert_eq!(t.played_at, None);

    let mut entries = track_without_played_at();
    entries.push(key("played_at", Json::Obj(vec![key("uts", Json::UInt(9_000_000_000_000))])));
    let t = Track::from_json(&Json::Obj(entries)).expect("track must decode");
    assert_eq!(t.played_at, None);
}

fn friend_json(name: &str) -> Json {
    Json::Obj(vec![
        key("name", js(name)),
        key("subscriber", js("0")),
        key("realname", js("Real Name")),
        key("bootstrap", js("0")),
        key("image", Json::Arr(vec![])),
        key("country", js("None")),
        key("url", js("https://example.com/user/x")),
        key("registered", Json::Obj(vec![key("unixtime", Json::UInt(1600000000))])),
    ])
}

#[test]
fn friend_decodes() {
    let f = Friend::from_json(&friend_json("pal")).expect("friend must decode");
    assert_eq!(f.name, "pal");
    assert_eq!(f.registered, 1_600_000_000);
    assert!(!f.subscriber);
}

#[test]
fn user_decodes() {
    let doc = Json::Obj(vec![
        key("name", js("listener")),
        key("age", js("0")),
        key("subscriber", js("0")),
        key("realname", js("A Listener")),
        key("bootstrap", js("0")),
        key("playcount", js("230")),
        key("artist_count", js("12")),
        key("playlists", js("1")),
        key("track_count", js("99")),
        key("album_count", js("20")),
        key("image", Json::Arr(vec![])),
        key("country", js("None")),
        key("gender", js("n")),
        key("url", js("https://example.com/user/listener")),
        key("kind", js("user")),
        key("registered", Json::Obj(vec![key("unixtime", Json::UInt(1500000000))])),
    ]);
    let u = User::from_json(&doc).expect("user must decode");
    assert_eq!(u.name, "listener");
    assert_eq!(u.playcount, 230);
    assert_eq!(u.registered, 1_500_000_000);
}

#[test]
fn page_extracts_root_and_content() {
    let doc = Json::Obj(vec![
        key("ignored", js("x")),
        key(
            "recenttracks",
            Json::Obj(vec![
                key("extra", Json::Null),
                key("@attr", attr_block("1", "3", "2", "6")),
                key("track", Json::Arr(vec![track_json("Song A"), track_json("Song B")])),
            ]),
        ),
    ]);
    let seed = PageSeed::<Track>::new("recenttracks", "track");
    let p: Page<Track> = seed.decode(&doc).expect("page must decode");
    assert_eq!(p.items.len(), 2);
    assert_eq!(p.attr, Attributes { total_pages: 3, page: 1, per_page: 2, total: 6 });
    assert_eq!(p.items[0].name, "Song A");
    assert_eq!(p.items[1].name, "Song B");
}

#[test]
fn page_missing_root_is_a_parse_error() {
    let doc = Json::Obj(vec![key("somethingelse", Json::Obj(vec![]))]);
    let seed = PageSeed::<Track>::new("recenttracks", "track");
    match seed.decode(&doc) {
        Err(Error::ParseError(m)) => assert_eq!(m, "missing root"),
        other => panic!("expected a parse error, got {other:?}"),
    }
}

#[test]
fn page_missing_attr_and_content_are_distinct_errors() {
    let seed = PageSeed::<Track>::new("r", "c");
    let no_attr = Json::Obj(vec![key("r", Json::Obj(vec![key("c", Json::Arr(vec![]))]))]);
    match seed.decode(&no_attr) {
        Err(Error::ParseError(m)) => assert_eq!(m, "missing @attr"),
        other => panic!("expected a parse error, got {other:?}"),
    }
    let no_content = Json::Obj(vec![key(
        "r",
        Json::Obj(vec![key("@attr", attr_block("1", "1", "2", "0"))]),
    )]);
    match seed.decode(&no_content) {
        Err(Error::ParseError(m)) => assert_eq!(m, "missing content key"),
        other => panic!("expected a parse error, got {other:?}"),
    }
}

#[test]
fn page_bad_item_is_a_parse_error() {
    let seed = PageSeed::<Track>::new("r", "c");
    let doc = Json::Obj(vec![key(
        "r",
        Json::Obj(vec![
            key("@attr", attr_block("1", "1", "2", "1")),
            key("c", Json::Arr(vec![js("not a track")])),
        ]),
    )]);
    match seed.decode(&doc) {
        Err(Error::ParseError(m)) => assert_eq!(m, "invalid content"),
        other => panic!("expected a parse error, got {other:?}"),
    }
}

#[test]
fn user_missing_field_fails() {
    let doc = Json::Obj(vec![key("name", js("listener"))]);
    assert!(User::from_json(&doc).is_none());
}

#[test]
fn registered_must_be_an_integer_block() {
    let mut entries = match friend_json("pal") {
        Json::Obj(e) => e,
        _ => unreachable!(),
    };
    for pair in entries.iter_mut() {
        if pair.0 == "registered" {
            // the registration timestamp is a real number on the wire, not
            // a numeric string
            pair.1 = Json::Obj(vec![key("unixtime", js("1600000000"))]);
        }
    }
    assert!(Friend::from_json(&Json::Obj(entries)).is_none());
}
