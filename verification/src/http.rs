//! What the library hands to whoever does the sending, and what it takes
//! back: a request as plain values, and the outcome of sending one.

use vstd::prelude::*;
use crate::form::pairs_view;

verus! {

/// How a request is sent.
#[derive(Debug, Clone, Copy, PartialEq, Eq, Structural)]
pub enum Method {
    Get,
    Post,
}

/// One request to send: where to, with which headers, and with what body.
#[derive(Debug)]
pub struct Request {
    pub method: Method,
    pub url: String,
    pub headers: Vec<(String, String)>,
    pub body: Option<String>,
}

/// The mathematical value of a `Request`.
pub ghost struct RequestView {
    pub method: Method,
    pub url: Seq<char>,
    pub headers: Seq<(Seq<char>, Seq<char>)>,
    pub body: Option<Seq<char>>,
}

impl View for Request {
    type V = RequestView;

    open spec fn view(&self) -> RequestView {
        RequestView {
            method: self.method,
            url: self.url@,
            headers: pairs_view(self.headers@),
            body: match self.body {
                Some(body) => Some(body@),
                None => None,
            },
        }
    }
}

/// What came of sending a request: the text of the answer, or nothing.
#[derive(Debug)]
pub enum Reply {
    /// The answer's body.
    Body(String),
    /// The request did not get through.
    Failed,
}

} // verus!
