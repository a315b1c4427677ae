//! Request methods, as far as routing tells them apart.

use crate::text::same_text;
use vstd::prelude::*;

verus! {

/// The method of a request.
#[derive(Clone, Copy, Debug, PartialEq, Eq, Structural)]
pub enum Method {
    Get,
    Put,
    Post,
    /// Any other method: `HEAD`, `DELETE`, `OPTIONS`, an extension method.
    Other,
}

/// The method that a method token names. Tokens are case-sensitive.
pub open spec fn method_of(name: Seq<char>) -> Method {
    if name == "GET"@ {
        Method::Get
    } else if name == "PUT"@ {
        Method::Put
    } else if name == "POST"@ {
        Method::Post
    } else {
        Method::Other
    }
}

impl Method {
    /// Tells the method of a request from its token.
    pub fn from_name(name: &str) -> (method: Method)
        ensures
            method == method_of(name@),
    {
        if same_text(name, "GET") {
            Method::Get
        } else if same_text(name, "PUT") {
            Method::Put
        } else if same_text(name, "POST") {
            Method::Post
        } else {
            Method::Other
        }
    }
}

/// The methods that a route accepts.
#[derive(Clone, Copy, Debug, PartialEq, Eq, Structural)]
pub enum Guard {
    Get,
    Put,
    Post,
    /// Every method.
    Any,
}

/// Whether a route with `guard` accepts `method`.
pub open spec fn admits(guard: Guard, method: Method) -> bool {
    match guard {
        Guard::Get => method == Method::Get,
        Guard::Put => method == Method::Put,
        Guard::Post => method == Method::Post,
        Guard::Any => true,
    }
}

impl Guard {
    /// Whether a route with this guard accepts `method`.
    pub fn admits(&self, method: Method) -> (accepted: bool)
        ensures
            accepted == admits(*self, method),
    {
        match self {
            Guard::Get => method == Method::Get,
            Guard::Put => method == Method::Put,
            Guard::Post => method == Method::Post,
            Guard::Any => true,
        }
    }
}

} // verus!
