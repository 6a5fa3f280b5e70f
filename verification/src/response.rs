//! Responses, and the errors that stand for one.

use vstd::prelude::*;
use vstd::string::StringSliceAdditionalSpecFns;
use crate::body::Body;
use crate::status::{StatusCode, OK};

verus! {

/// The view of an optional text.
pub open spec fn text_view(text: Option<String>) -> Option<Seq<char>> {
    match text {
        Some(t) => Some(t@),
        None => None,
    }
}

/// The bytes that carry an optional message: its UTF-8 encoding, or nothing.
pub open spec fn message_bytes(message: Option<Seq<char>>) -> Seq<u8> {
    match message {
        Some(m) => vstd::utf8::encode_utf8(m),
        None => Seq::empty(),
    }
}

/// An error that stands for a response: a status and, if there is one, a
/// message for the client.
#[derive(Debug)]
pub struct ResponseError {
    pub status: StatusCode,
    pub message: Option<String>,
}

/// A response: status, headers and body. `error` is the error that the
/// response was made from, where it was made from one.
#[derive(Debug)]
pub struct Response<S> {
    pub status: StatusCode,
    pub headers: Vec<(String, String)>,
    pub body: Body<S>,
    pub error: Option<ResponseError>,
}

impl ResponseError {
    /// The message, as text.
    pub open spec fn message_view(self) -> Option<Seq<char>> {
        text_view(self.message)
    }

    /// An error with a status and no message.
    pub fn from_status(status: StatusCode) -> (e: ResponseError)
        ensures
            e.status == status,
            e.message is None,
    {
        ResponseError { status, message: None }
    }

    /// An error with a status and, if given, a message.
    pub fn new(status: StatusCode, message: Option<String>) -> (e: ResponseError)
        ensures
            e.status == status,
            e.message == message,
    {
        ResponseError { status, message }
    }

    /// The status of the error.
    pub fn status(&self) -> (s: StatusCode)
        ensures
            s == self.status,
    {
        self.status
    }

    /// The message of the error.
    pub fn message(&self) -> (m: Option<&String>)
        ensures
            match m {
                Some(text) => self.message == Some(*text),
                None => self.message is None,
            },
    {
        match &self.message {
            Some(text) => Some(text),
            None => None,
        }
    }

    /// The response that reports this error: its status, no headers, the
    /// message as body (an empty body where there is none), and the error
    /// itself attached.
    pub fn into_response<S>(self) -> (r: Response<S>)
        ensures
            r.status == self.status,
            r.headers@.len() == 0,
            !r.body.spec_is_stream(),
            r.body.bytes() == message_bytes(self.message_view()),
            r.error == Some(self),
    {
        let body = match &self.message {
            Some(text) => Body::from_text(text.as_str()),
            None => Body::empty(),
        };
        Response { status: self.status, headers: Vec::new(), body, error: Some(self) }
    }
}

impl<S> Response<S> {
    /// The message of the attached error, as text.
    pub open spec fn error_message(self) -> Option<Seq<char>> {
        match self.error {
            Some(e) => e.message_view(),
            None => None,
        }
    }

    /// A response with status 200 and the given body.
    pub fn new(body: Body<S>) -> (r: Response<S>)
        ensures
            r.status == StatusCode(OK),
            r.headers@.len() == 0,
            r.body == body,
            r.error is None,
    {
        Response { status: StatusCode(OK), headers: Vec::new(), body, error: None }
    }

    /// A response with the given status and body.
    pub fn with_status(status: StatusCode, body: Body<S>) -> (r: Response<S>)
        ensures
            r.status == status,
            r.headers@.len() == 0,
            r.body == body,
            r.error is None,
    {
        Response { status, headers: Vec::new(), body, error: None }
    }

    /// A response with status 200 that carries `html` as an HTML document.
    pub fn html(html: &str) -> (r: Response<S>)
        ensures
            r.status == StatusCode(OK),
            r.headers@.len() == 1,
            r.headers@[0].0@ == "content-type"@,
            r.headers@[0].1@ == "text/html; charset=utf-8"@,
            !r.body.spec_is_stream(),
            r.body.bytes() == html.spec_bytes(),
            r.error is None,
    {
        let mut headers: Vec<(String, String)> = Vec::new();
        headers.push(("content-type".to_owned(), "text/html; charset=utf-8".to_owned()));
        Response { status: StatusCode(OK), headers, body: Body::from_text(html), error: None }
    }

    /// The status of the response.
    pub fn status(&self) -> (s: StatusCode)
        ensures
            s == self.status,
    {
        self.status
    }

    /// The body of the response.
    pub fn into_body(self) -> (b: Body<S>)
        ensures
            b == self.body,
    {
        self.body
    }
}

} // verus!
