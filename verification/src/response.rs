//! What the service answers: a status, a content type and a body of text.

use vstd::prelude::*;

verus! {

/// The statuses that the service answers with.
#[derive(Clone, Copy, Debug, PartialEq, Eq, Structural)]
pub enum Status {
    /// 200
    Success,
    /// 404
    NotFound,
    /// 405
    MethodNotAllowed,
    /// 503
    ServiceUnavailable,
}

/// The number of a status.
pub open spec fn status_code(status: Status) -> int {
    match status {
        Status::Success => 200,
        Status::NotFound => 404,
        Status::MethodNotAllowed => 405,
        Status::ServiceUnavailable => 503,
    }
}

impl Status {
    /// The number of the status.
    pub fn code(&self) -> (code: u16)
        ensures
            code == status_code(*self),
    {
        match self {
            Status::Success => 200,
            Status::NotFound => 404,
            Status::MethodNotAllowed => 405,
            Status::ServiceUnavailable => 503,
        }
    }
}

/// The content type of every response that has a body.
pub const HTML_UTF8: &'static str = "text/html; charset=utf-8";

/// A response as a plain value.
pub struct ResponseView {
    pub status: Status,
    pub content_type: Option<Seq<char>>,
    pub body: Seq<char>,
}

/// A response with a body of HTML text.
pub open spec fn html(status: Status, body: Seq<char>) -> ResponseView {
    ResponseView { status, content_type: Some(HTML_UTF8@), body }
}

/// A response without content type and body.
pub open spec fn bare(status: Status) -> ResponseView {
    ResponseView { status, content_type: None, body: Seq::<char>::empty() }
}

/// An answer to one request.
#[derive(Clone, Debug)]
pub struct Response {
    pub status: Status,
    pub content_type: Option<String>,
    pub body: String,
}

impl View for Response {
    type V = ResponseView;

    open spec fn view(&self) -> ResponseView {
        ResponseView {
            status: self.status,
            content_type: match self.content_type {
                Some(text) => Some(text@),
                None => None,
            },
            body: self.body@,
        }
    }
}

impl Response {
    /// A response with `body` as HTML text.
    pub fn html(status: Status, body: String) -> (response: Response)
        ensures
            response@ == html(status, body@),
    {
        Response { status, content_type: Some(HTML_UTF8.to_owned()), body }
    }

    /// A response without content type and body.
    pub fn bare(status: Status) -> (response: Response)
        ensures
            response@ == bare(status),
    {
        Response { status, content_type: None, body: String::new() }
    }
}

} // verus!
