//! The envelope decoder.
//!
//! The API does not tag whether a document is a success or an error: the
//! error shape is tried first, and only when the document is not an error
//! payload is the caller's success shape attempted.

use vstd::prelude::*;

use crate::error::last_fm::{LastFmError, LastFmErrorResponse};
use crate::error::Error;
use crate::json::{json_of, parse_json, views_of, FromJson, Json};
use crate::page::serde::{page_decode_spec, PageSeed};
use crate::page::Page;

verus! {

/// A decoded envelope: either the success payload or the error payload.
#[derive(Debug, PartialEq)]
pub enum Response<T> {
    Success(T),
    Failure(LastFmErrorResponse),
}

/// What a document decodes to as an envelope around the success shape `T`:
/// the error shape is tried first; a document that is neither shape is a
/// parse failure.
pub open spec fn envelope_spec<T: FromJson>(doc: Json) -> Result<Response<T::V>, Seq<char>> {
    match LastFmErrorResponse::from_json_spec(doc) {
        Some(e) => Ok(Response::Failure(e)),
        None => match T::from_json_spec(doc) {
            Some(v) => Ok(Response::Success(v)),
            None => Err("failed to decode response"@),
        },
    }
}

impl<T: FromJson> Response<T> {
    /// Decodes a document as an envelope, exactly as [`envelope_spec`]
    /// says.
    pub fn decode(doc: &Json) -> (r: Result<Response<T>, Error>)
        ensures
            ({
                let s = envelope_spec::<T>(*doc);
                match r {
                    Ok(Response::Success(v)) => s == Ok::<Response<T::V>, Seq<char>>(
                        Response::Success(v@),
                    ),
                    Ok(Response::Failure(e)) => s == Ok::<Response<T::V>, Seq<char>>(
                        Response::Failure(e),
                    ),
                    Err(e) => s is Err && (e matches Error::ParseError(m) && m@ == s->Err_0),
                }
            }),
    {
        match LastFmErrorResponse::from_json(doc) {
            Some(e) => Ok(Response::Failure(e)),
            None => match T::from_json(doc) {
                Some(v) => Ok(Response::Success(v)),
                None => Err(Error::ParseError(String::from_str("failed to decode response"))),
            },
        }
    }
}

impl<T: FromJson> Response<T> {
    /// Parses raw response bytes and decodes them as an envelope: a parse
    /// failure of the bytes themselves is a parse error, and the document
    /// then decodes exactly as [`envelope_spec`] says.
    pub fn decode_slice(bytes: &[u8]) -> (r: Result<Response<T>, Error>)
        ensures
            ({
                let p = json_of(bytes@);
                match r {
                    Ok(Response::Success(v)) => p is Ok && envelope_spec::<T>(p->Ok_0)
                        == Ok::<Response<T::V>, Seq<char>>(Response::Success(v@)),
                    Ok(Response::Failure(e)) => p is Ok && envelope_spec::<T>(p->Ok_0)
                        == Ok::<Response<T::V>, Seq<char>>(Response::Failure(e)),
                    Err(e) => e matches Error::ParseError(m) && ((p matches Err(pm) && pm == m@)
                        || (p is Ok && envelope_spec::<T>(p->Ok_0) == Err::<
                        Response<T::V>,
                        Seq<char>,
                    >(m@))),
                }
            }),
    {
        match parse_json(bytes) {
            Err(m) => Err(Error::ParseError(m)),
            Ok(doc) => Self::decode(&doc),
        }
    }
}

impl<T> Response<T> {
    /// Converts into a standard result, mapping the error payload to its
    /// named condition.
    pub fn into_result(self) -> (r: Result<T, Error>)
        ensures
            match self {
                Response::Success(v) => r == Ok::<T, Error>(v),
                Response::Failure(e) => r == Err::<T, Error>(
                    Error::ApiError(LastFmError::from_response_spec(e)),
                ),
            },
    {
        match self {
            Response::Success(value) => Ok(value),
            Response::Failure(err) => Err(Error::ApiError(LastFmError::from(err))),
        }
    }
}

/// A document that decodes as the error shape always yields the mapped
/// error payload, never a success value, whatever other fields it holds.
pub proof fn lemma_error_shape_wins<T: FromJson>(doc: Json)
    requires
        LastFmErrorResponse::from_json_spec(doc) is Some,
    ensures
        envelope_spec::<T>(doc) == Ok::<Response<T::V>, Seq<char>>(
            Response::Failure(LastFmErrorResponse::from_json_spec(doc)->Some_0),
        ),
{
}

/// The envelope decoder around the keyed-content extractor: tries the
/// error shape first and the page shape second, as the seed it wraps
/// prescribes.
pub struct ResponseSeed<T> {
    pub ok_seed: PageSeed<T>,
}

impl<T> ResponseSeed<T> {
    /// An envelope decoder around the given success-shape seed.
    pub fn new(ok_seed: PageSeed<T>) -> (r: Self)
        ensures
            r.ok_seed == ok_seed,
    {
        Self { ok_seed }
    }
}

impl<T: FromJson> ResponseSeed<T> {
    /// Decodes a document: the error shape wins when it matches; otherwise
    /// the page shape is tried, and a document matching neither is a parse
    /// failure.
    pub fn decode(&self, doc: &Json) -> (r: Result<Response<Page<T>>, Error>)
        ensures
            ({
                let er = LastFmErrorResponse::from_json_spec(*doc);
                let ps = page_decode_spec::<T>(*doc, self.ok_seed.root@, self.ok_seed.content.content@);
                match r {
                    Ok(Response::Failure(e)) => er == Some(e),
                    Ok(Response::Success(p)) => er is None && ps is Ok && p.attr == ps->Ok_0.0
                        && views_of(p.items@) =~= ps->Ok_0.1,
                    Err(e) => er is None && ps is Err && (e matches Error::ParseError(m) && m@
                        == ps->Err_0),
                }
            }),
    {
        match LastFmErrorResponse::from_json(doc) {
            Some(e) => Ok(Response::Failure(e)),
            None => match self.ok_seed.decode(doc) {
                Ok(p) => Ok(Response::Success(p)),
                Err(e) => Err(e),
            },
        }
    }
}

} // verus!
