//! The API's error taxonomy: a closed set of numeric error codes, each with
//! a human label, plus a catch-all for codes outside the set.

use vstd::prelude::*;

use crate::json::{obj_lookup, FromJson, Json};

verus! {

/// The error payload as it appears on the wire: a numeric code and an
/// optional free-text message.
#[derive(Debug, PartialEq)]
pub struct LastFmErrorResponse {
    pub message: Option<String>,
    pub error: u32,
}

impl View for LastFmErrorResponse {
    type V = LastFmErrorResponse;

    open spec fn view(&self) -> LastFmErrorResponse {
        *self
    }
}

impl FromJson for LastFmErrorResponse {
    /// The error shape: an object with an `error` field holding an unsigned
    /// integer that fits `u32`, and an optional string (or null) `message`
    /// field. Other fields are ignored.
    open spec fn from_json_spec(v: Json) -> Option<Self::V> {
        match v {
            Json::Obj(entries) => match obj_lookup(entries@, "error"@) {
                Some(Json::UInt(u)) => if u <= u32::MAX as u64 {
                    match obj_lookup(entries@, "message"@) {
                        None => Some(LastFmErrorResponse { message: None, error: u as u32 }),
                        Some(Json::Null) => Some(
                            LastFmErrorResponse { message: None, error: u as u32 },
                        ),
                        Some(Json::Str(s)) => Some(
                            LastFmErrorResponse { message: Some(s), error: u as u32 },
                        ),
                        Some(_) => None,
                    }
                } else {
                    None
                },
                _ => None,
            },
            _ => None,
        }
    }

    fn from_json(v: &Json) -> (r: Option<Self>) {
        match v {
            Json::Obj(entries) => {
                let code = match crate::json::obj_get(entries, &String::from_str("error")) {
                    Some(Json::UInt(u)) => {
                        if *u <= 0xffff_ffff {
                            Some(*u as u32)
                        } else {
                            return None;
                        }
                    },
                    _ => {
                        return None;
                    },
                };
                let code = code.unwrap();
                match crate::json::obj_get(entries, &String::from_str("message")) {
                    None => Some(LastFmErrorResponse { message: None, error: code }),
                    Some(Json::Null) => Some(LastFmErrorResponse { message: None, error: code }),
                    Some(Json::Str(s)) => Some(
                        LastFmErrorResponse { message: Some(s.clone()), error: code },
                    ),
                    Some(_) => None,
                }
            },
            _ => None,
        }
    }
}

/// An optional free-text message carried alongside an error condition.
#[derive(Debug, PartialEq)]
pub struct MaybeMsg(pub Option<String>);

impl View for MaybeMsg {
    type V = Option<Seq<char>>;

    open spec fn view(&self) -> Option<Seq<char>> {
        match self.0 {
            Some(s) => Some(s@),
            None => None,
        }
    }
}

impl MaybeMsg {
    /// The message text, when one is present and non-empty.
    pub fn text(&self) -> (r: Option<&String>)
        ensures
            match r {
                Some(s) => self@ matches Some(m) && m == s@ && m.len() > 0,
                None => self@ is None || (self@ matches Some(m) && m.len() == 0),
            },
    {
        match &self.0 {
            Some(s) => {
                if s.as_str().unicode_len() > 0 {
                    Some(s)
                } else {
                    None
                }
            },
            None => None,
        }
    }
}

/// The named error conditions of the API, one per known numeric code, plus
/// a catch-all for unknown codes. Each carries the optional message that
/// came with it.
#[derive(Debug, PartialEq)]
pub enum LastFmError {
    InvalidService { message: MaybeMsg },
    InvalidMethod { message: MaybeMsg },
    AuthenticationFailed { message: MaybeMsg },
    InvalidFormat { message: MaybeMsg },
    InvalidParameters { message: MaybeMsg },
    InvalidResource { message: MaybeMsg },
    OperationFailed { message: MaybeMsg },
    InvalidSessionKey { message: MaybeMsg },
    InvalidApiKey { message: MaybeMsg },
    ServiceOffline { message: MaybeMsg },
    InvalidSignature { message: MaybeMsg },
    TemporaryError { message: MaybeMsg },
    SuspendedApiKey { message: MaybeMsg },
    RateLimitExceeded { message: MaybeMsg },
    Unknown { code: u32, message: MaybeMsg },
}

impl LastFmError {
    /// The numeric code of this condition.
    pub open spec fn spec_code(self) -> u32 {
        match self {
            Self::InvalidService { .. } => 2,
            Self::InvalidMethod { .. } => 3,
            Self::AuthenticationFailed { .. } => 4,
            Self::InvalidFormat { .. } => 5,
            Self::InvalidParameters { .. } => 6,
            Self::InvalidResource { .. } => 7,
            Self::OperationFailed { .. } => 8,
            Self::InvalidSessionKey { .. } => 9,
            Self::InvalidApiKey { .. } => 10,
            Self::ServiceOffline { .. } => 11,
            Self::InvalidSignature { .. } => 13,
            Self::TemporaryError { .. } => 16,
            Self::SuspendedApiKey { .. } => 26,
            Self::RateLimitExceeded { .. } => 29,
            Self::Unknown { code, .. } => code,
        }
    }

    /// The message carried by this condition.
    pub open spec fn spec_message(self) -> MaybeMsg {
        match self {
            Self::InvalidService { message } => message,
            Self::InvalidMethod { message } => message,
            Self::AuthenticationFailed { message } => message,
            Self::InvalidFormat { message } => message,
            Self::InvalidParameters { message } => message,
            Self::InvalidResource { message } => message,
            Self::OperationFailed { message } => message,
            Self::InvalidSessionKey { message } => message,
            Self::InvalidApiKey { message } => message,
            Self::ServiceOffline { message } => message,
            Self::InvalidSignature { message } => message,
            Self::TemporaryError { message } => message,
            Self::SuspendedApiKey { message } => message,
            Self::RateLimitExceeded { message } => message,
            Self::Unknown { message, .. } => message,
        }
    }

    /// The condition a decoded error payload maps to: by exact code match,
    /// with unknown codes kept verbatim in the catch-all.
    pub open spec fn from_response_spec(value: LastFmErrorResponse) -> LastFmError {
        let msg = MaybeMsg(value.message);
        if value.error == 2 {
            Self::InvalidService { message: msg }
        } else if value.error == 3 {
            Self::InvalidMethod { message: msg }
        } else if value.error == 4 {
            Self::AuthenticationFailed { message: msg }
        } else if value.error == 5 {
            Self::InvalidFormat { message: msg }
        } else if value.error == 6 {
            Self::InvalidParameters { message: msg }
        } else if value.error == 7 {
            Self::InvalidResource { message: msg }
        } else if value.error == 8 {
            Self::OperationFailed { message: msg }
        } else if value.error == 9 {
            Self::InvalidSessionKey { message: msg }
        } else if value.error == 10 {
            Self::InvalidApiKey { message: msg }
        } else if value.error == 11 {
            Self::ServiceOffline { message: msg }
        } else if value.error == 13 {
            Self::InvalidSignature { message: msg }
        } else if value.error == 16 {
            Self::TemporaryError { message: msg }
        } else if value.error == 26 {
            Self::SuspendedApiKey { message: msg }
        } else if value.error == 29 {
            Self::RateLimitExceeded { message: msg }
        } else {
            Self::Unknown { code: value.error, message: msg }
        }
    }

    /// The numeric code of this condition.
    pub fn code(&self) -> (r: u32)
        ensures
            r == self.spec_code(),
    {
        match self {
            Self::InvalidService { .. } => 2,
            Self::InvalidMethod { .. } => 3,
            Self::AuthenticationFailed { .. } => 4,
            Self::InvalidFormat { .. } => 5,
            Self::InvalidParameters { .. } => 6,
            Self::InvalidResource { .. } => 7,
            Self::OperationFailed { .. } => 8,
            Self::InvalidSessionKey { .. } => 9,
            Self::InvalidApiKey { .. } => 10,
            Self::ServiceOffline { .. } => 11,
            Self::InvalidSignature { .. } => 13,
            Self::TemporaryError { .. } => 16,
            Self::SuspendedApiKey { .. } => 26,
            Self::RateLimitExceeded { .. } => 29,
            Self::Unknown { code, .. } => *code,
        }
    }

    /// The human label of this condition.
    pub open spec fn spec_label(self) -> Seq<char> {
        match self {
            Self::InvalidService { .. } => "Invalid service"@,
            Self::InvalidMethod { .. } => "Invalid method"@,
            Self::AuthenticationFailed { .. } => "Authentication failed"@,
            Self::InvalidFormat { .. } => "Invalid format"@,
            Self::InvalidParameters { .. } => "Invalid parameters"@,
            Self::InvalidResource { .. } => "Invalid resource specified"@,
            Self::OperationFailed { .. } => "Operation failed"@,
            Self::InvalidSessionKey { .. } => "Invalid session key"@,
            Self::InvalidApiKey { .. } => "Invalid API key"@,
            Self::ServiceOffline { .. } => "Service offline"@,
            Self::InvalidSignature { .. } => "Invalid method signature"@,
            Self::TemporaryError { .. } => "Temporary error"@,
            Self::SuspendedApiKey { .. } => "Suspended API key"@,
            Self::RateLimitExceeded { .. } => "Rate limit exceeded"@,
            Self::Unknown { .. } => "Unknown error"@,
        }
    }

    /// The human label of this condition.
    pub fn label(&self) -> (r: &'static str)
        ensures
            r@ == self.spec_label(),
    {
        match self {
            Self::InvalidService { .. } => "Invalid service",
            Self::InvalidMethod { .. } => "Invalid method",
            Self::AuthenticationFailed { .. } => "Authentication failed",
            Self::InvalidFormat { .. } => "Invalid format",
            Self::InvalidParameters { .. } => "Invalid parameters",
            Self::InvalidResource { .. } => "Invalid resource specified",
            Self::OperationFailed { .. } => "Operation failed",
            Self::InvalidSessionKey { .. } => "Invalid session key",
            Self::InvalidApiKey { .. } => "Invalid API key",
            Self::ServiceOffline { .. } => "Service offline",
            Self::InvalidSignature { .. } => "Invalid method signature",
            Self::TemporaryError { .. } => "Temporary error",
            Self::SuspendedApiKey { .. } => "Suspended API key",
            Self::RateLimitExceeded { .. } => "Rate limit exceeded",
            Self::Unknown { .. } => "Unknown error",
        }
    }

    /// The message carried by this condition, when present and non-empty.
    pub fn message(&self) -> (r: Option<&String>)
        ensures
            match r {
                Some(s) => self.spec_message()@ matches Some(m) && m == s@ && m.len() > 0,
                None => self.spec_message()@ is None || (self.spec_message()@ matches Some(m)
                    && m.len() == 0),
            },
    {
        match self {
            Self::InvalidService { message } => message.text(),
            Self::InvalidMethod { message } => message.text(),
            Self::AuthenticationFailed { message } => message.text(),
            Self::InvalidFormat { message } => message.text(),
            Self::InvalidParameters { message } => message.text(),
            Self::InvalidResource { message } => message.text(),
            Self::OperationFailed { message } => message.text(),
            Self::InvalidSessionKey { message } => message.text(),
            Self::InvalidApiKey { message } => message.text(),
            Self::ServiceOffline { message } => message.text(),
            Self::InvalidSignature { message } => message.text(),
            Self::TemporaryError { message } => message.text(),
            Self::SuspendedApiKey { message } => message.text(),
            Self::RateLimitExceeded { message } => message.text(),
            Self::Unknown { message, .. } => message.text(),
        }
    }
}

impl From<LastFmErrorResponse> for LastFmError {
    /// Maps a decoded error payload to its named condition.
    fn from(value: LastFmErrorResponse) -> (r: Self) {
        let msg = MaybeMsg(value.message);
        match value.error {
            2 => Self::InvalidService { message: msg },
            3 => Self::InvalidMethod { message: msg },
            4 => Self::AuthenticationFailed { message: msg },
            5 => Self::InvalidFormat { message: msg },
            6 => Self::InvalidParameters { message: msg },
            7 => Self::InvalidResource { message: msg },
            8 => Self::OperationFailed { message: msg },
            9 => Self::InvalidSessionKey { message: msg },
            10 => Self::InvalidApiKey { message: msg },
            11 => Self::ServiceOffline { message: msg },
            13 => Self::InvalidSignature { message: msg },
            16 => Self::TemporaryError { message: msg },
            26 => Self::SuspendedApiKey { message: msg },
            29 => Self::RateLimitExceeded { message: msg },
            other => Self::Unknown { code: other, message: msg },
        }
    }
}

impl vstd::std_specs::convert::FromSpecImpl<LastFmErrorResponse> for LastFmError {
    open spec fn obeys_from_spec() -> bool {
        true
    }

    open spec fn from_spec(value: LastFmErrorResponse) -> Self {
        Self::from_response_spec(value)
    }
}

/// The condition's code is the code of the payload it was mapped from.
pub proof fn lemma_from_response_code(value: LastFmErrorResponse)
    ensures
        LastFmError::from_response_spec(value).spec_code() == value.error,
        LastFmError::from_response_spec(value).spec_message() == MaybeMsg(value.message),
{
}

} // verus!
