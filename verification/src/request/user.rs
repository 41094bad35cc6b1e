//! Decoding for the user endpoints.

use vstd::prelude::*;

pub mod get_recent_tracks;

use crate::json::{obj_lookup, FromJson, Json};
use crate::types::user::{User, UserModel};

verus! {

/// The success payload of the user-info endpoint: the profile nested under
/// a `user` key.
#[derive(Debug, PartialEq)]
pub struct UserGetInfoResponse {
    pub user: User,
}

impl View for UserGetInfoResponse {
    type V = UserModel;

    open spec fn view(&self) -> UserModel {
        self.user@
    }
}

impl FromJson for UserGetInfoResponse {
    /// An object whose `user` field holds a profile.
    open spec fn from_json_spec(v: Json) -> Option<Self::V> {
        match v {
            Json::Obj(entries) => match obj_lookup(entries@, "user"@) {
                Some(uv) => User::from_json_spec(uv),
                None => None,
            },
            _ => None,
        }
    }

    fn from_json(v: &Json) -> (r: Option<Self>) {
        match v {
            Json::Obj(entries) => match crate::json::obj_get(entries, &String::from_str("user")) {
                Some(uv) => match User::from_json(uv) {
                    Some(user) => Some(UserGetInfoResponse { user }),
                    None => None,
                },
                None => None,
            },
            _ => None,
        }
    }
}

} // verus!
