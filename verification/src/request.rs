//! Request descriptors: what is to be sent, before anything is sent.

use vstd::prelude::*;

verus! {

/// The HTTP methods that the client speaks.
#[derive(Clone, Copy, Debug, PartialEq, Eq, Structural)]
pub enum Method {
    Get,
    Post,
    Put,
    Patch,
    Delete,
}

impl Method {
    /// The methods whose requests carry a body.
    pub open spec fn has_body(self) -> bool {
        self == Method::Post || self == Method::Put || self == Method::Patch
    }

    /// Says whether a request of this method carries a body.
    pub fn carries_body(&self) -> (yes: bool)
        ensures
            yes == self.has_body(),
    {
        match self {
            Method::Post | Method::Put | Method::Patch => true,
            Method::Get | Method::Delete => false,
        }
    }
}

/// One outgoing request: the method, the full URL, and the bearer token to
/// send with it, if any. A descriptor is made anew for every attempt.
#[derive(Debug, PartialEq, Eq)]
pub struct Request {
    pub method: Method,
    pub url: String,
    pub bearer_token: Option<String>,
}

/// A request descriptor as plain values.
pub struct RequestView {
    pub method: Method,
    pub url: Seq<char>,
    pub bearer_token: Option<Seq<char>>,
}

impl RequestView {
    /// This request with `token` as its bearer token, in place of any other.
    pub open spec fn with_bearer_token(self, token: Seq<char>) -> RequestView {
        RequestView { bearer_token: Some(token), ..self }
    }
}

impl Clone for Request {
    fn clone(&self) -> (copy: Request)
        ensures
            copy@ == self@,
    {
        Request {
            method: self.method,
            url: self.url.clone(),
            bearer_token: match &self.bearer_token {
                Some(token) => Some(token.clone()),
                None => None,
            },
        }
    }
}

impl View for Request {
    type V = RequestView;

    open spec fn view(&self) -> RequestView {
        RequestView {
            method: self.method,
            url: self.url@,
            bearer_token: match self.bearer_token {
                Some(token) => Some(token@),
                None => None,
            },
        }
    }
}

} // verus!
