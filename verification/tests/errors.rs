//! The error taxonomy and the dual-shape envelope decoder.

use lastfm::error::last_fm::{LastFmError, LastFmErrorResponse, MaybeMsg};
use lastfm::error::response::{Response, ResponseSeed};
use lastfm::error::Error;
use lastfm::json::{FromJson, Json};
use lastfm::page::serde::PageSeed;
use lastfm::request::user::get_recent_tracks::now_playing_filter;
use lastfm::request::user::UserGetInfoResponse;
use lastfm::types::track::Track;

fn key(k: &str, v: Json) -> (String, Json) {
    (k.to_string(), v)
}

fn js(s: &str) -> Json {
    Json::Str(s.to_string())
}

#[test]
fn known_codes_map_to_their_conditions() {
    let cases: Vec<(u32, &str)> = vec![
        (2, "Invalid service"),
        (3, "Invalid method"),
        (4, "Authentication failed"),
        (5, "Invalid format"),
        (6, "Invalid parameters"),
        (7, "Invalid resource specified"),
        (8, "Operation failed"),
        (9, "Invalid session key"),
        (10, "Invalid API key"),
        (11, "Service offline"),
        (13, "Invalid method signature"),
        (16, "Temporary error"),
        (26, "Suspended API key"),
        (29, "Rate limit exceeded"),
    ];
    for (code, label) in cases {
        let e = LastFmError::from(LastFmErrorResponse { message: None, error: code });
        assert_eq!(e.code(), code);
        assert_eq!(e.label(), label);
    }
}

#[test]
fn unknown_codes_keep_their_number() {
    let e = LastFmError::from(LastFmErrorResponse {
        message: Some("odd".to_string()),
        error: 12,
    });
    assert_eq!(e.code(), 12);
    assert_eq!(e.label(), "Unknown error");
    assert!(matches!(e, LastFmError::Unknown { code: 12, .. }));
}

#[test]
fn maybe_msg_hides_empty_text() {
    assert_eq!(MaybeMsg(None).text(), None);
    assert_eq!(MaybeMsg(Some(String::new())).text(), None);
    assert_eq!(
        MaybeMsg(Some("why".to_string())).text().map(|s| s.as_str()),
        Some("why")
    );
}

#[test]
fn error_shape_decodes_with_and_without_message() {
    let with = Json::Obj(vec![key("error", Json::UInt(10)), key("message", js("bad key"))]);
    let without = Json::Obj(vec![key("error", Json::UInt(10))]);
    let null_msg = Json::Obj(vec![key("error", Json::UInt(10)), key("message", Json::Null)]);
    assert_eq!(
        LastFmErrorResponse::from_json(&with),
        Some(LastFmErrorResponse { message: Some("bad key".to_string()), error: 10 })
    );
    assert_eq!(
        LastFmErrorResponse::from_json(&without),
        Some(LastFmErrorResponse { message: None, error: 10 })
    );
    assert_eq!(
        LastFmErrorResponse::from_json(&null_msg),
        Some(LastFmErrorResponse { message: None, error: 10 })
    );
}

#[test]
fn error_shape_needs_a_numeric_code() {
    let string_code = Json::Obj(vec![key("error", js("10"))]);
    let no_code = Json::Obj(vec![key("message", js("bad key"))]);
    let huge_code = Json::Obj(vec![key("error", Json::UInt(1 << 40))]);
    assert_eq!(LastFmErrorResponse::from_json(&string_code), None);
    assert_eq!(LastFmErrorResponse::from_json(&no_code), None);
    assert_eq!(LastFmErrorResponse::from_json(&huge_code), None);
}

#[test]
fn envelope_prefers_the_error_shape() {
    // the document also carries other fields, even a plausible success
    // payload; the error field still decides
    let doc = Json::Obj(vec![
        key("user", Json::Obj(vec![key("name", js("x"))])),
        key("error", Json::UInt(6)),
        key("message", js("Your request lacks parameters")),
    ]);
    let r = Response::<UserGetInfoResponse>::decode(&doc).expect("envelope must decode");
    match r {
        Response::Failure(e) => assert_eq!(e.error, 6),
        Response::Success(_) => panic!("an error envelope must never decode as success"),
    }
}

#[test]
fn envelope_failure_maps_through_into_result() {
    let doc = Json::Obj(vec![key("error", Json::UInt(9))]);
    let r = Response::<UserGetInfoResponse>::decode(&doc).expect("envelope must decode");
    match r.into_result() {
        Err(Error::ApiError(e)) => assert_eq!(e.code(), 9),
        other => panic!("expected an API error, got {other:?}"),
    }
}

#[test]
fn envelope_neither_shape_is_a_parse_error() {
    let doc = Json::Obj(vec![key("unrelated", Json::Null)]);
    match Response::<UserGetInfoResponse>::decode(&doc) {
        Err(Error::ParseError(_)) => {},
        other => panic!("expected a parse error, got {other:?}"),
    }
}

#[test]
fn envelope_success_shape_decodes() {
    let user = Json::Obj(vec![
        key("name", js("listener")),
        key("age", js("0")),
        key("subscriber", js("0")),
        key("realname", js("A Listener")),
        key("bootstrap", js("0")),
        key("playcount", js("230")),
        key("artist_count", js("12")),
        key("playlists", js("1")),
        key("track_count", js("99")),
        key("album_count", js("20")),
        key("image", Json::Arr(vec![])),
        key("country", js("None")),
        key("gender", js("n")),
        key("url", js("https://example.com/user/listener")),
        key("kind", js("user")),
        key("registered", Json::Obj(vec![key("unixtime", Json::UInt(1500000000))])),
    ]);
    let doc = Json::Obj(vec![key("user", user)]);
    let r = Response::<UserGetInfoResponse>::decode(&doc).expect("envelope must decode");
    match r.into_result() {
        Ok(resp) => assert_eq!(resp.user.name, "listener"),
        Err(e) => panic!("expected a success, got {e:?}"),
    }
}

#[test]
fn response_seed_tries_error_shape_first() {
    let seed = ResponseSeed::new(PageSeed::<Track>::new("recenttracks", "track"));
    let err_doc = Json::Obj(vec![key("error", Json::UInt(11))]);
    match seed.decode(&err_doc) {
        Ok(Response::Failure(e)) => assert_eq!(e.error, 11),
        other => panic!("expected the error shape, got {other:?}"),
    }
    let neither = Json::Obj(vec![key("unrelated", Json::Null)]);
    match seed.decode(&neither) {
        Err(Error::ParseError(m)) => assert_eq!(m, "missing root"),
        other => panic!("expected a parse error, got {other:?}"),
    }
}

#[test]
fn now_playing_filter_passes_one_marked_track() {
    let mut may_emit = true;
    let playing = Track {
        artist: lastfm::types::track::TrackArtist {
            url: None,
            name: "a".to_string(),
            image: vec![],
            musicbrainz_id: None,
        },
        album: lastfm::types::track::TrackAlbum { musicbrainz_id: None, title: "t".to_string() },
        name: "now".to_string(),
        url: "https://example.com/t".to_string(),
        image: vec![],
        musicbrainz_id: None,
        streamable: false,
        loved: false,
        played_at: None,
        now_playing: true,
    };
    let ordinary = Track { now_playing: false, name: "later".to_string(), ..playing.clone() };

    assert!(now_playing_filter(&Ok(playing.clone()), &mut may_emit));
    assert!(!may_emit);
    assert!(!now_playing_filter(&Ok(playing.clone()), &mut may_emit));
    assert!(now_playing_filter(&Ok(ordinary), &mut may_emit));
    assert!(now_playing_filter(&Err(Error::RequestFailed("x".to_string())), &mut may_emit));

    let mut suppressed = false;
    assert!(!now_playing_filter(&Ok(playing), &mut suppressed));
}

#[test]
fn public_authentication_keeps_its_key() {
    let auth = lastfm::authentication::public::PublicAuthentication::new("SECRET-REDACTED");
    assert_eq!(auth.api_key(), "SECRET-REDACTED");
}

#[test]
fn decode_slice_parses_real_bytes() {
    let bytes = br#"{"error": 16, "message": "try again"}"#;
    let r = Response::<UserGetInfoResponse>::decode_slice(bytes).expect("envelope must decode");
    match r {
        Response::Failure(e) => {
            assert_eq!(e.error, 16);
            assert_eq!(e.message.as_deref(), Some("try again"));
        },
        Response::Success(_) => panic!("an error envelope must never decode as success"),
    }
}

#[test]
fn decode_slice_rejects_malformed_bytes() {
    match Response::<UserGetInfoResponse>::decode_slice(b"not json at all") {
        Err(Error::ParseError(_)) => {},
        other => panic!("expected a parse error, got {other:?}"),
    }
}
