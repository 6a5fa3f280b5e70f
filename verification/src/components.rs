//! What the error pages show.

use vstd::prelude::*;
use crate::response::text_view;
use crate::status::{reason_phrase, StatusCode, NOT_FOUND};
use crate::text::{decimal, u32_to_string};

verus! {

/// Properties for an error page.
#[derive(Debug)]
pub struct ErrorPageProps {
    /// The status code of the error.
    pub status: StatusCode,
    /// The message of the error.
    pub message: Option<String>,
}

/// Props for the `NotFoundPage`
#[derive(Debug)]
pub struct NotFoundPageProps {
    /// An optional error message.
    pub message: Option<String>,
}

/// The heading of an error page for a status whose reason phrase is `reason`:
/// that phrase, or a general one where the status has none.
pub open spec fn heading_for(reason: Option<Seq<char>>) -> Seq<char> {
    match reason {
        Some(phrase) => phrase,
        None => "An error has occurred"@,
    }
}

/// The heading of an error page, given the reason phrase of its status.
pub fn heading_of(reason: Option<String>) -> (text: String)
    ensures
        text@ == heading_for(text_view(reason)),
{
    match reason {
        Some(phrase) => phrase,
        None => "An error has occurred".to_owned(),
    }
}

impl ErrorPageProps {
    /// The status code as the page shows it: in decimal.
    pub fn status_text(&self) -> (text: String)
        ensures
            text@ == decimal(self.status.0 as nat),
    {
        u32_to_string(self.status.0 as u32)
    }

    /// The heading of the page: the reason phrase of the status, or a general
    /// one where the status has none.
    pub fn heading(&self) -> (text: String)
        ensures
            text@ == heading_for(reason_phrase(self.status.0)),
    {
        heading_of(self.status.canonical_reason())
    }
}

impl NotFoundPageProps {
    /// The properties of the error page that the not-found page shows: status
    /// 404 and the message of this page.
    pub fn into_error_props(self) -> (props: ErrorPageProps)
        ensures
            props.status == StatusCode(NOT_FOUND),
            props.message == self.message,
    {
        ErrorPageProps { status: StatusCode(NOT_FOUND), message: self.message }
    }
}

impl Default for NotFoundPageProps {
    /// No message.
    fn default() -> (p: NotFoundPageProps)
        ensures
            p.message is None,
    {
        NotFoundPageProps { message: None }
    }
}

} // verus!
