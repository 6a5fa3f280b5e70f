//! HTTP status codes.

use vstd::prelude::*;

verus! {

/// The code of "Not Found".
pub const NOT_FOUND: u16 = 404;

/// The code of "Method Not Allowed".
pub const METHOD_NOT_ALLOWED: u16 = 405;

/// The code of "Internal Server Error".
pub const INTERNAL_SERVER_ERROR: u16 = 500;

/// The code of "OK".
pub const OK: u16 = 200;

/// The reason phrase that `StatusCode::canonical_reason` gives for the status
/// of `code`, where `code` is one, and the status has a phrase.
pub uninterp spec fn reason_phrase(code: u16) -> Option<Seq<char>>;

/// `StatusCode::from_u16` and `StatusCode::canonical_reason`: the standard
/// reason phrase of the status, copied. A number that is no status code gives
/// nothing.
#[verifier::external_body]
fn canonical_reason_of(code: u16) -> (reason: Option<String>)
    ensures
        crate::response::text_view(reason) == reason_phrase(code),
{
    match http::StatusCode::from_u16(code) {
        Ok(status) => status.canonical_reason().map(|phrase| phrase.to_owned()),
        Err(_) => None,
    }
}

/// An HTTP status code.
#[derive(Debug, Clone, Copy, PartialEq, Eq, Hash, Structural)]
pub struct StatusCode(pub u16);

impl StatusCode {
    /// Whether the code is in the 4xx range.
    pub open spec fn spec_is_client_error(self) -> bool {
        400 <= self.0 < 500
    }

    /// Whether the code is in the 5xx range.
    pub open spec fn spec_is_server_error(self) -> bool {
        500 <= self.0 < 600
    }

    /// Whether the code reports an error: it is in the 4xx or the 5xx range.
    pub open spec fn spec_is_error(self) -> bool {
        self.spec_is_client_error() || self.spec_is_server_error()
    }

    /// The status with the given code.
    pub fn new(code: u16) -> (s: StatusCode)
        ensures
            s.0 == code,
    {
        StatusCode(code)
    }

    /// The code of this status.
    pub fn as_u16(&self) -> (code: u16)
        ensures
            code == self.0,
    {
        self.0
    }

    /// Whether the code is in the 4xx range.
    pub fn is_client_error(&self) -> (r: bool)
        ensures
            r == self.spec_is_client_error(),
    {
        400 <= self.0 && self.0 < 500
    }

    /// Whether the code is in the 5xx range.
    pub fn is_server_error(&self) -> (r: bool)
        ensures
            r == self.spec_is_server_error(),
    {
        500 <= self.0 && self.0 < 600
    }

    /// The standard reason phrase of the status, if it has one.
    pub fn canonical_reason(&self) -> (reason: Option<String>)
        ensures
            crate::response::text_view(reason) == reason_phrase(self.0),
    {
        canonical_reason_of(self.0)
    }

    /// Whether the code reports an error.
    pub fn is_error(&self) -> (r: bool)
        ensures
            r == self.spec_is_error(),
    {
        self.is_client_error() || self.is_server_error()
    }
}

} // verus!
