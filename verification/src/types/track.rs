//! Tracks as the recent-tracks endpoint reports them.

use vstd::prelude::*;

use crate::json::{
    decode_items_spec, items_from_json, obj_lookup, views_of, FromJson, Json,
};
use crate::types::image::{Image, ImageModel};
use crate::types::{
    lower, opt_str_view, opt_trimmed, opt_trimmed_spec, opt_url, opt_url_spec, req_bool,
    req_bool_spec, req_str, req_str_spec, req_url, req_url_spec, str_eq_lower, str_to_i64,
    str_to_i64_spec, trim_spec,
};

verus! {

/// The first Unix second that falls on a representable date of the
/// supported proleptic Gregorian calendar (years -262143 through 262142).
pub const MIN_CALENDAR_SECONDS: i64 = -8_334_601_228_800;

/// The last Unix second that falls on a representable date of the
/// supported calendar.
pub const MAX_CALENDAR_SECONDS: i64 = 8_210_266_876_799;

/// Whether Unix second `secs` falls on a representable calendar date.
pub open spec fn in_calendar_range(secs: i64) -> bool {
    MIN_CALENDAR_SECONDS <= secs && secs <= MAX_CALENDAR_SECONDS
}

/// The timestamp a track's `played_at` field carries, when it carries one:
/// an object holding the Unix seconds under `uts`, either as a decimal
/// string or as an integer. A malformed `uts` is a decode failure (the
/// outer `None`); seconds outside the representable calendar range, like
/// any other shape, simply mean no timestamp.
pub open spec fn played_at_spec(entries: Seq<(String, Json)>) -> Option<Option<i64>> {
    match obj_lookup(entries, "played_at"@) {
        None => Some(None),
        Some(v) => match v {
            Json::Obj(inner) => match obj_lookup(inner@, "uts"@) {
                None => Some(None),
                Some(Json::Str(s)) => match str_to_i64_spec(s@) {
                    Some(i) => if in_calendar_range(i) {
                        Some(Some(i))
                    } else {
                        Some(None)
                    },
                    None => None,
                },
                Some(Json::UInt(u)) => if u <= i64::MAX as u64 {
                    if in_calendar_range(u as i64) {
                        Some(Some(u as i64))
                    } else {
                        Some(None)
                    }
                } else {
                    None
                },
                Some(Json::Int(i)) => if in_calendar_range(i) {
                    Some(Some(i))
                } else {
                    Some(None)
                },
                Some(Json::InexactNum) => None,
                Some(_) => Some(None),
            },
            _ => Some(None),
        },
    }
}

/// Reads the played-at timestamp, exactly as [`played_at_spec`] says.
pub fn played_at_field(entries: &Vec<(String, Json)>) -> (r: Option<Option<i64>>)
    ensures
        r == played_at_spec(entries@),
{
    match crate::json::obj_get(entries, &String::from_str("played_at")) {
        None => Some(None),
        Some(v) => match v {
            Json::Obj(inner) => match crate::json::obj_get(inner, &String::from_str("uts")) {
                None => Some(None),
                Some(Json::Str(s)) => match str_to_i64(s.as_str()) {
                    Some(i) => {
                        if MIN_CALENDAR_SECONDS <= i && i <= MAX_CALENDAR_SECONDS {
                            Some(Some(i))
                        } else {
                            Some(None)
                        }
                    },
                    None => None,
                },
                Some(Json::UInt(u)) => {
                    if *u <= 0x7fff_ffff_ffff_ffff {
                        let i = *u as i64;
                        if MIN_CALENDAR_SECONDS <= i && i <= MAX_CALENDAR_SECONDS {
                            Some(Some(i))
                        } else {
                            Some(None)
                        }
                    } else {
                        None
                    }
                },
                Some(Json::Int(i)) => {
                    if MIN_CALENDAR_SECONDS <= *i && *i <= MAX_CALENDAR_SECONDS {
                        Some(Some(*i))
                    } else {
                        Some(None)
                    }
                },
                Some(Json::InexactNum) => None,
                Some(_) => Some(None),
            },
            _ => Some(None),
        },
    }
}

/// Whether a now-playing marker's text affirms it: after trimming and
/// lowercasing it must be `"true"`, `"t"`, `"yes"` or `"y"`.
pub open spec fn now_text_spec(s: Seq<char>) -> bool {
    let t = lower(trim_spec(s));
    t == "true"@ || t == "t"@ || t == "yes"@ || t == "y"@
}

/// Whether a track's `@attr` block marks it as playing now: the block must
/// be an object whose `nowplaying` entry is an affirming string or the
/// boolean itself; every other shape means not playing. Never a failure.
pub open spec fn now_playing_spec(entries: Seq<(String, Json)>) -> bool {
    match obj_lookup(entries, "@attr"@) {
        Some(Json::Obj(inner)) => match obj_lookup(inner@, "nowplaying"@) {
            Some(Json::Str(s)) => now_text_spec(s@),
            Some(Json::Bool(b)) => b,
            _ => false,
        },
        _ => false,
    }
}

/// Reads the now-playing marker, exactly as [`now_playing_spec`] says.
pub fn now_playing_field(entries: &Vec<(String, Json)>) -> (r: bool)
    ensures
        r == now_playing_spec(entries@),
{
    match crate::json::obj_get(entries, &String::from_str("@attr")) {
        Some(Json::Obj(inner)) => match crate::json::obj_get(
            inner,
            &String::from_str("nowplaying"),
        ) {
            Some(Json::Str(s)) => {
                let t = crate::types::trim_str(s.as_str());
                str_eq_lower(t, "true") || str_eq_lower(t, "t") || str_eq_lower(t, "yes")
                    || str_eq_lower(t, "y")
            },
            Some(Json::Bool(b)) => *b,
            _ => false,
        },
        _ => false,
    }
}

/// The artist of a track.
#[derive(Debug, Clone, PartialEq)]
pub struct TrackArtist {
    pub url: Option<String>,
    pub name: String,
    pub image: Vec<Image>,
    pub musicbrainz_id: Option<String>,
}

/// The mathematical shape of a [`TrackArtist`].
#[verifier::ext_equal]
pub struct TrackArtistModel {
    pub url: Option<Seq<char>>,
    pub name: Seq<char>,
    pub image: Seq<ImageModel>,
    pub musicbrainz_id: Option<Seq<char>>,
}

impl View for TrackArtist {
    type V = TrackArtistModel;

    open spec fn view(&self) -> TrackArtistModel {
        TrackArtistModel {
            url: opt_str_view(self.url),
            name: self.name@,
            image: views_of(self.image@),
            musicbrainz_id: opt_str_view(self.musicbrainz_id),
        }
    }
}

impl FromJson for TrackArtist {
    /// An object with an optional `url` (a well-formed URL when present), a
    /// required `name`, a required `image` array and an optional trimmed
    /// `mbid`.
    open spec fn from_json_spec(v: Json) -> Option<Self::V> {
        match v {
            Json::Obj(entries) => match (
                opt_url_spec(entries@, "url"@),
                req_str_spec(entries@, "name"@),
                opt_trimmed_spec(entries@, "mbid"@),
            ) {
                (Some(url), Some(name), Some(mbid)) => match obj_lookup(entries@, "image"@) {
                    Some(Json::Arr(items)) => match decode_items_spec::<Image>(items@) {
                        Some(image) => Some(
                            TrackArtistModel { url, name, image, musicbrainz_id: mbid },
                        ),
                        None => None,
                    },
                    _ => None,
                },
                _ => None,
            },
            _ => None,
        }
    }

    fn from_json(v: &Json) -> (r: Option<Self>) {
        match v {
            Json::Obj(entries) => {
                let url = opt_url(entries, &String::from_str("url"));
                let name = req_str(entries, &String::from_str("name"));
                let mbid = opt_trimmed(entries, &String::from_str("mbid"));
                match (url, name, mbid) {
                    (Some(url), Some(name), Some(mbid)) => match crate::json::obj_get(
                        entries,
                        &String::from_str("image"),
                    ) {
                        Some(Json::Arr(items)) => match items_from_json::<Image>(items) {
                            Some(image) => Some(
                                TrackArtist { url, name, image, musicbrainz_id: mbid },
                            ),
                            None => None,
                        },
                        _ => None,
                    },
                    _ => None,
                }
            },
            _ => None,
        }
    }
}

/// The album a track belongs to.
#[derive(Debug, Clone, PartialEq)]
pub struct TrackAlbum {
    pub musicbrainz_id: Option<String>,
    pub title: String,
}

/// The mathematical shape of a [`TrackAlbum`].
#[verifier::ext_equal]
pub struct TrackAlbumModel {
    pub musicbrainz_id: Option<Seq<char>>,
    pub title: Seq<char>,
}

impl View for TrackAlbum {
    type V = TrackAlbumModel;

    open spec fn view(&self) -> TrackAlbumModel {
        TrackAlbumModel { musicbrainz_id: opt_str_view(self.musicbrainz_id), title: self.title@ }
    }
}

impl FromJson for TrackAlbum {
    /// An object with an optional trimmed `mbid` and the album title under
    /// `#text`.
    open spec fn from_json_spec(v: Json) -> Option<Self::V> {
        match v {
            Json::Obj(entries) => match (
                opt_trimmed_spec(entries@, "mbid"@),
                req_str_spec(entries@, "#text"@),
            ) {
                (Some(mbid), Some(title)) => Some(
                    TrackAlbumModel { musicbrainz_id: mbid, title },
                ),
                _ => None,
            },
            _ => None,
        }
    }

    fn from_json(v: &Json) -> (r: Option<Self>) {
        match v {
            Json::Obj(entries) => {
                let mbid = opt_trimmed(entries, &String::from_str("mbid"));
                let title = req_str(entries, &String::from_str("#text"));
                match (mbid, title) {
                    (Some(mbid), Some(title)) => Some(
                        TrackAlbum { musicbrainz_id: mbid, title },
                    ),
                    _ => None,
                }
            },
            _ => None,
        }
    }
}

/// One scrobbled (or playing) track.
#[derive(Debug, Clone, PartialEq)]
pub struct Track {
    pub artist: TrackArtist,
    pub album: TrackAlbum,
    pub name: String,
    pub url: String,
    pub image: Vec<Image>,
    pub musicbrainz_id: Option<String>,
    pub streamable: bool,
    pub loved: bool,
    /// When the track was played, in Unix seconds, always within the
    /// representable calendar range; absent for the track playing now or
    /// when the reported seconds fall outside that range.
    pub played_at: Option<i64>,
    pub now_playing: bool,
}

/// The mathematical shape of a [`Track`].
#[verifier::ext_equal]
pub struct TrackModel {
    pub artist: TrackArtistModel,
    pub album: TrackAlbumModel,
    pub name: Seq<char>,
    pub url: Seq<char>,
    pub image: Seq<ImageModel>,
    pub musicbrainz_id: Option<Seq<char>>,
    pub streamable: bool,
    pub loved: bool,
    pub played_at: Option<i64>,
    pub now_playing: bool,
}

impl View for Track {
    type V = TrackModel;

    open spec fn view(&self) -> TrackModel {
        TrackModel {
            artist: self.artist@,
            album: self.album@,
            name: self.name@,
            url: self.url@,
            image: views_of(self.image@),
            musicbrainz_id: opt_str_view(self.musicbrainz_id),
            streamable: self.streamable,
            loved: self.loved,
            played_at: self.played_at,
            now_playing: self.now_playing,
        }
    }
}

impl FromJson for Track {
    /// An object with required `artist`, `album`, `name`, `url` (a
    /// well-formed URL), `image`, `streamable` and `loved` (wire booleans)
    /// fields, an optional trimmed `mbid`, an optional `played_at`
    /// timestamp block and an optional now-playing marker under `@attr`.
    open spec fn from_json_spec(v: Json) -> Option<Self::V> {
        match v {
            Json::Obj(entries) => match (
                obj_lookup(entries@, "artist"@),
                obj_lookup(entries@, "album"@),
            ) {
                (Some(av), Some(bv)) => match (
                    TrackArtist::from_json_spec(av),
                    TrackAlbum::from_json_spec(bv),
                    req_str_spec(entries@, "name"@),
                    req_url_spec(entries@, "url"@),
                    opt_trimmed_spec(entries@, "mbid"@),
                    req_bool_spec(entries@, "streamable"@),
                    req_bool_spec(entries@, "loved"@),
                    played_at_spec(entries@),
                ) {
                    (
                        Some(artist),
                        Some(album),
                        Some(name),
                        Some(url),
                        Some(mbid),
                        Some(streamable),
                        Some(loved),
                        Some(played_at),
                    ) => match obj_lookup(entries@, "image"@) {
                        Some(Json::Arr(items)) => match decode_items_spec::<Image>(items@) {
                            Some(image) => Some(
                                TrackModel {
                                    artist,
                                    album,
                                    name,
                                    url,
                                    image,
                                    musicbrainz_id: mbid,
                                    streamable,
                                    loved,
                                    played_at,
                                    now_playing: now_playing_spec(entries@),
                                },
                            ),
                            None => None,
                        },
                        _ => None,
                    },
                    _ => None,
                },
                _ => None,
            },
            _ => None,
        }
    }

    fn from_json(v: &Json) -> (r: Option<Self>) {
        match v {
            Json::Obj(entries) => {
                let artist = match crate::json::obj_get(entries, &String::from_str("artist")) {
                    Some(av) => TrackArtist::from_json(av),
                    None => {
                        return None;
                    },
                };
                let album = match crate::json::obj_get(entries, &String::from_str("album")) {
                    Some(bv) => TrackAlbum::from_json(bv),
                    None => {
                        return None;
                    },
                };
                let name = req_str(entries, &String::from_str("name"));
                let url = req_url(entries, &String::from_str("url"));
                let mbid = opt_trimmed(entries, &String::from_str("mbid"));
                let streamable = req_bool(entries, &String::from_str("streamable"));
                let loved = req_bool(entries, &String::from_str("loved"));
                let played_at = played_at_field(entries);
                match (artist, album, name, url, mbid, streamable, loved, played_at) {
                    (
                        Some(artist),
                        Some(album),
                        Some(name),
                        Some(url),
                        Some(mbid),
                        Some(streamable),
                        Some(loved),
                        Some(played_at),
                    ) => match crate::json::obj_get(entries, &String::from_str("image")) {
                        Some(Json::Arr(items)) => match items_from_json::<Image>(items) {
                            Some(image) => Some(
                                Track {
                                    artist,
                                    album,
                                    name,
                                    url,
                                    image,
                                    musicbrainz_id: mbid,
                                    streamable,
                                    loved,
                                    played_at,
                                    now_playing: now_playing_field(entries),
                                },
                            ),
                            None => None,
                        },
                        _ => None,
                    },
                    _ => None,
                }
            },
            _ => None,
        }
    }
}

} // verus!
