//! Credentials: how a request gets them attached.

use crate::request::Request;
use vstd::prelude::*;

verus! {

/// A way to attach credentials to an outgoing request.
///
/// An authenticator only decorates the descriptor that it is given: it sends
/// nothing, cannot fail, and leaves the method and the URL as they are.
pub trait Authenticator: Send + Sync {
    fn authenticate(&self, request: Request) -> (authenticated: Request)
        ensures
            authenticated@.method == request@.method,
            authenticated@.url == request@.url,
    ;
}

/// Authentication by a static bearer token.
pub struct TokenAuth {
    pub token: String,
}

impl Authenticator for TokenAuth {
    /// Makes the stored token the bearer token of the request.
    fn authenticate(&self, request: Request) -> (authenticated: Request)
        ensures
            authenticated@ == request@.with_bearer_token(self.token@),
    {
        Request { method: request.method, url: request.url, bearer_token: Some(self.token.clone()) }
    }
}

/// An OAuth access token. How it is attached depends on the service, so this
/// type is no `Authenticator` by itself.
pub struct OAuth {
    pub access_token: String,
}

/// Authenticating twice with one token is authenticating once.
pub proof fn law_token_auth_is_idempotent(auth: TokenAuth, request: Request)
    ensures
        request@.with_bearer_token(auth.token@).with_bearer_token(auth.token@)
            == request@.with_bearer_token(auth.token@),
{
}

} // verus!
