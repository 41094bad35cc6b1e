//! API-key authentication, which enables reading public data.

use vstd::prelude::*;

use crate::authentication::{Enables, ReadPublic};

verus! {

/// An API key, applied to outbound requests as the `api_key` query
/// parameter by the request composition layer.
#[derive(Clone)]
pub struct PublicAuthentication {
    api_key: String,
}

impl View for PublicAuthentication {
    type V = Seq<char>;

    closed spec fn view(&self) -> Seq<char> {
        self.api_key@
    }
}

impl Enables<ReadPublic> for PublicAuthentication {

}

impl PublicAuthentication {
    /// An authentication from the given API key.
    pub fn new(api_key: &str) -> (r: Self)
        ensures
            r@ == api_key@,
    {
        Self { api_key: String::from_str(api_key) }
    }

    /// The API key to attach to outbound requests.
    pub fn api_key(&self) -> (r: &String)
        ensures
            r@ == self@,
    {
        &self.api_key
    }
}

} // verus!
