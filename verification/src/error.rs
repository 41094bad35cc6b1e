//! The library's error type and its model.
//!
//! Three things can go wrong: the transport fails, the server answers with a
//! well-formed error payload, or the response matches neither expected
//! shape. Each is terminal for the operation that produced it.

use vstd::prelude::*;

pub mod last_fm;
pub mod response;

use crate::error::last_fm::LastFmError;

verus! {

/// The result type of the library's fallible operations.
pub type LastFmResult<T> = Result<T, Error>;

/// What went wrong with an operation against the API.
#[derive(Debug, PartialEq)]
pub enum Error {
    /// The transport could not produce response bytes; carries its
    /// diagnostic message.
    RequestFailed(String),
    /// The server answered with a well-formed error payload.
    ApiError(LastFmError),
    /// The response bytes matched neither the error shape nor the expected
    /// success shape.
    ParseError(String),
}

/// The mathematical shape of an [`Error`]: message strings are carried as
/// character sequences.
#[verifier::ext_equal]
pub enum ErrorModel {
    RequestFailed(Seq<char>),
    ApiError(LastFmError),
    ParseError(Seq<char>),
}

impl View for Error {
    type V = ErrorModel;

    open spec fn view(&self) -> ErrorModel {
        match self {
            Error::RequestFailed(m) => ErrorModel::RequestFailed(m@),
            Error::ApiError(e) => ErrorModel::ApiError(*e),
            Error::ParseError(m) => ErrorModel::ParseError(m@),
        }
    }
}

} // verus!
