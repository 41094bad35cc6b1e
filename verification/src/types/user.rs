//! Users and friends as the user endpoints report them.

use vstd::prelude::*;

use crate::json::{
    decode_items_spec, items_from_json, obj_lookup, views_of, FromJson, Json,
};
use crate::types::image::{Image, ImageModel};
use crate::types::{
    req_bool, req_bool_spec, req_str, req_str_spec, req_u32_str, req_u32_str_spec, req_url,
    req_url_spec,
};

verus! {

/// The registration timestamp block: an object holding the Unix seconds
/// under `unixtime` as an integer.
pub open spec fn registered_spec(entries: Seq<(String, Json)>) -> Option<i64> {
    match obj_lookup(entries, "registered"@) {
        Some(Json::Obj(inner)) => match obj_lookup(inner@, "unixtime"@) {
            Some(Json::UInt(u)) => if u <= i64::MAX as u64 {
                Some(u as i64)
            } else {
                None
            },
            Some(Json::Int(i)) => Some(i),
            _ => None,
        },
        _ => None,
    }
}

/// Reads the registration timestamp, exactly as [`registered_spec`] says.
pub fn registered_field(entries: &Vec<(String, Json)>) -> (r: Option<i64>)
    ensures
        r == registered_spec(entries@),
{
    match crate::json::obj_get(entries, &String::from_str("registered")) {
        Some(Json::Obj(inner)) => match crate::json::obj_get(inner, &String::from_str("unixtime"))
            {
            Some(Json::UInt(u)) => {
                if *u <= 0x7fff_ffff_ffff_ffff {
                    Some(*u as i64)
                } else {
                    None
                }
            },
            Some(Json::Int(i)) => Some(*i),
            _ => None,
        },
        _ => None,
    }
}

/// The item array under `key`, decoded as images.
pub open spec fn image_list_spec(entries: Seq<(String, Json)>) -> Option<Seq<ImageModel>> {
    match obj_lookup(entries, "image"@) {
        Some(Json::Arr(items)) => decode_items_spec::<Image>(items@),
        _ => None,
    }
}

fn image_list(entries: &Vec<(String, Json)>) -> (r: Option<Vec<Image>>)
    ensures
        match r {
            Some(v) => image_list_spec(entries@) matches Some(s) && s =~= views_of(v@),
            None => image_list_spec(entries@) is None,
        },
{
    match crate::json::obj_get(entries, &String::from_str("image")) {
        Some(Json::Arr(items)) => items_from_json::<Image>(items),
        _ => None,
    }
}

/// A user's profile.
#[derive(Debug, PartialEq)]
pub struct User {
    pub name: String,
    pub age: u32,
    pub subscriber: bool,
    pub realname: String,
    pub bootstrap: bool,
    pub playcount: u32,
    pub artist_count: u32,
    pub playlists: u32,
    pub track_count: u32,
    pub album_count: u32,
    pub image: Vec<Image>,
    pub country: String,
    pub gender: String,
    pub url: String,
    pub kind: String,
    /// When the account was registered, in Unix seconds.
    pub registered: i64,
}

/// The mathematical shape of a [`User`].
#[verifier::ext_equal]
pub struct UserModel {
    pub name: Seq<char>,
    pub age: u32,
    pub subscriber: bool,
    pub realname: Seq<char>,
    pub bootstrap: bool,
    pub playcount: u32,
    pub artist_count: u32,
    pub playlists: u32,
    pub track_count: u32,
    pub album_count: u32,
    pub image: Seq<ImageModel>,
    pub country: Seq<char>,
    pub gender: Seq<char>,
    pub url: Seq<char>,
    pub kind: Seq<char>,
    pub registered: i64,
}

impl View for User {
    type V = UserModel;

    open spec fn view(&self) -> UserModel {
        UserModel {
            name: self.name@,
            age: self.age,
            subscriber: self.subscriber,
            realname: self.realname@,
            bootstrap: self.bootstrap,
            playcount: self.playcount,
            artist_count: self.artist_count,
            playlists: self.playlists,
            track_count: self.track_count,
            album_count: self.album_count,
            image: views_of(self.image@),
            country: self.country@,
            gender: self.gender@,
            url: self.url@,
            kind: self.kind@,
            registered: self.registered,
        }
    }
}

impl FromJson for User {
    /// An object with the profile's string fields verbatim, its numeric
    /// fields as decimal strings, its boolean fields as wire booleans, a
    /// well-formed `url`, an `image` array and a `registered` timestamp
    /// block. All fields are required; unmatched fields are ignored.
    open spec fn from_json_spec(v: Json) -> Option<Self::V> {
        match v {
            Json::Obj(entries) => match (
                req_str_spec(entries@, "name"@),
                req_str_spec(entries@, "realname"@),
                req_str_spec(entries@, "country"@),
                req_str_spec(entries@, "gender"@),
                req_str_spec(entries@, "kind"@),
            ) {
                (Some(name), Some(realname), Some(country), Some(gender), Some(kind)) => match (
                    req_u32_str_spec(entries@, "age"@),
                    req_u32_str_spec(entries@, "playcount"@),
                    req_u32_str_spec(entries@, "artist_count"@),
                    req_u32_str_spec(entries@, "playlists"@),
                    req_u32_str_spec(entries@, "track_count"@),
                    req_u32_str_spec(entries@, "album_count"@),
                ) {
                    (
                        Some(age),
                        Some(playcount),
                        Some(artist_count),
                        Some(playlists),
                        Some(track_count),
                        Some(album_count),
                    ) => match (
                        req_bool_spec(entries@, "subscriber"@),
                        req_bool_spec(entries@, "bootstrap"@),
                        req_url_spec(entries@, "url"@),
                        registered_spec(entries@),
                        image_list_spec(entries@),
                    ) {
                        (
                            Some(subscriber),
                            Some(bootstrap),
                            Some(url),
                            Some(registered),
                            Some(image),
                        ) => Some(
                            UserModel {
                                name,
                                age,
                                subscriber,
                                realname,
                                bootstrap,
                                playcount,
                                artist_count,
                                playlists,
                                track_count,
                                album_count,
                                image,
                                country,
                                gender,
                                url,
                                kind,
                                registered,
                            },
                        ),
                        _ => None,
                    },
                    _ => None,
                },
                _ => None,
            },
            _ => None,
        }
    }

    fn from_json(v: &Json) -> (r: Option<Self>) {
        match v {
            Json::Obj(entries) => {
                let name = req_str(entries, &String::from_str("name"));
                let realname = req_str(entries, &String::from_str("realname"));
                let country = req_str(entries, &String::from_str("country"));
                let gender = req_str(entries, &String::from_str("gender"));
                let kind = req_str(entries, &String::from_str("kind"));
                let age = req_u32_str(entries, &String::from_str("age"));
                let playcount = req_u32_str(entries, &String::from_str("playcount"));
                let artist_count = req_u32_str(entries, &String::from_str("artist_count"));
                let playlists = req_u32_str(entries, &String::from_str("playlists"));
                let track_count = req_u32_str(entries, &String::from_str("track_count"));
                let album_count = req_u32_str(entries, &String::from_str("album_count"));
                let subscriber = req_bool(entries, &String::from_str("subscriber"));
                let bootstrap = req_bool(entries, &String::from_str("bootstrap"));
                let url = req_url(entries, &String::from_str("url"));
                let registered = registered_field(entries);
                let image = image_list(entries);
                match (
                    name,
                    realname,
                    country,
                    gender,
                    kind,
                    age,
                    playcount,
                    artist_count,
                    playlists,
                    track_count,
                    album_count,
                    subscriber,
                    bootstrap,
                    url,
                    registered,
                    image,
                ) {
                    (
                        Some(name),
                        Some(realname),
                        Some(country),
                        Some(gender),
                        Some(kind),
                        Some(age),
                        Some(playcount),
                        Some(artist_count),
                        Some(playlists),
                        Some(track_count),
                        Some(album_count),
                        Some(subscriber),
                        Some(bootstrap),
                        Some(url),
                        Some(registered),
                        Some(image),
                    ) => Some(
                        User {
                            name,
                            age,
                            subscriber,
                            realname,
                            bootstrap,
                            playcount,
                            artist_count,
                            playlists,
                            track_count,
                            album_count,
                            image,
                            country,
                            gender,
                            url,
                            kind,
                            registered,
                        },
                    ),
                    _ => None,
                }
            },
            _ => None,
        }
    }
}

/// A friend of a user, as the friends endpoint reports one.
#[derive(Debug, PartialEq)]
pub struct Friend {
    pub name: String,
    pub subscriber: bool,
    pub realname: String,
    pub bootstrap: bool,
    pub image: Vec<Image>,
    pub country: String,
    pub url: String,
    /// When the account was registered, in Unix seconds.
    pub registered: i64,
}

/// The mathematical shape of a [`Friend`].
#[verifier::ext_equal]
pub struct FriendModel {
    pub name: Seq<char>,
    pub subscriber: bool,
    pub realname: Seq<char>,
    pub bootstrap: bool,
    pub image: Seq<ImageModel>,
    pub country: Seq<char>,
    pub url: Seq<char>,
    pub registered: i64,
}

impl View for Friend {
    type V = FriendModel;

    open spec fn view(&self) -> FriendModel {
        FriendModel {
            name: self.name@,
            subscriber: self.subscriber,
            realname: self.realname@,
            bootstrap: self.bootstrap,
            image: views_of(self.image@),
            country: self.country@,
            url: self.url@,
            registered: self.registered,
        }
    }
}

impl FromJson for Friend {
    /// An object with the friend's string fields verbatim, its boolean
    /// fields as wire booleans, a well-formed `url`, an `image` array and
    /// a `registered` timestamp block. All fields are required.
    open spec fn from_json_spec(v: Json) -> Option<Self::V> {
        match v {
            Json::Obj(entries) => match (
                req_str_spec(entries@, "name"@),
                req_str_spec(entries@, "realname"@),
                req_str_spec(entries@, "country"@),
                req_bool_spec(entries@, "subscriber"@),
                req_bool_spec(entries@, "bootstrap"@),
                req_url_spec(entries@, "url"@),
                registered_spec(entries@),
                image_list_spec(entries@),
            ) {
                (
                    Some(name),
                    Some(realname),
                    Some(country),
                    Some(subscriber),
                    Some(bootstrap),
                    Some(url),
                    Some(registered),
                    Some(image),
                ) => Some(
                    FriendModel {
                        name,
                        subscriber,
                        realname,
                        bootstrap,
                        image,
                        country,
                        url,
                        registered,
                    },
                ),
                _ => None,
            },
            _ => None,
        }
    }

    fn from_json(v: &Json) -> (r: Option<Self>) {
        match v {
            Json::Obj(entries) => {
                let name = req_str(entries, &String::from_str("name"));
                let realname = req_str(entries, &String::from_str("realname"));
                let country = req_str(entries, &String::from_str("country"));
                let subscriber = req_bool(entries, &String::from_str("subscriber"));
                let bootstrap = req_bool(entries, &String::from_str("bootstrap"));
                let url = req_url(entries, &String::from_str("url"));
                let registered = registered_field(entries);
                let image = image_list(entries);
                match (name, realname, country, subscriber, bootstrap, url, registered, image) {
                    (
                        Some(name),
                        Some(realname),
                        Some(country),
                        Some(subscriber),
                        Some(bootstrap),
                        Some(url),
                        Some(registered),
                        Some(image),
                    ) => Some(
                        Friend {
                            name,
                            subscriber,
                            realname,
                            bootstrap,
                            image,
                            country,
                            url,
                            registered,
                        },
                    ),
                    _ => None,
                }
            },
            _ => None,
        }
    }
}

} // verus!
