//! The client handle: the base URL and the retry budget of one target service.

use crate::backoff::{backoff_secs, delay_secs, MAX_BACKOFF_ATTEMPTS};
use crate::request::{Method, Request, RequestView};
use crate::retry::{RetryState, RetryView};
use vstd::prelude::*;

verus! {

/// The configuration of a client. It is set once, by `new`, and only read
/// after that, so one handle can serve any number of calls at once.
pub struct SNClient {
    url: String,
    max_retries: usize,
}

/// A client handle as plain values.
pub struct ClientView {
    pub url: Seq<char>,
    pub max_retries: nat,
}

impl ClientView {
    /// The URL of `endpoint`: the base URL, a slash, and the endpoint, each as
    /// it is. Slashes are neither added to nor taken from either part.
    pub open spec fn endpoint_url(self, endpoint: Seq<char>) -> Seq<char> {
        self.url + seq!['/'] + endpoint
    }

    /// The request for `endpoint` by `method`, without credentials.
    pub open spec fn request(self, method: Method, endpoint: Seq<char>) -> RequestView {
        RequestView { method, url: self.endpoint_url(endpoint), bearer_token: None }
    }
}

impl View for SNClient {
    type V = ClientView;

    closed spec fn view(&self) -> ClientView {
        ClientView { url: self.url@, max_retries: self.max_retries as nat }
    }
}

impl SNClient {
    /// A client for the service at `url` that retries a call up to
    /// `max_retries` times.
    pub fn new(url: &str, max_retries: usize) -> (client: SNClient)
        ensures
            client@ == (ClientView { url: url@, max_retries: max_retries as nat }),
    {
        SNClient { url: url.to_owned(), max_retries }
    }

    /// The base URL.
    pub fn url(&self) -> (url: &str)
        ensures
            url@ == self@.url,
    {
        self.url.as_str()
    }

    /// The most retries that one call may make.
    pub fn max_retries(&self) -> (max_retries: usize)
        ensures
            max_retries == self@.max_retries,
    {
        self.max_retries
    }

    /// The wait, in seconds, after the `attempts`-th retryable failure of a
    /// call: one second, doubled for every failure before it. The count must be
    /// one whose delay a `u64` can hold.
    pub fn calculate_delay(&self, attempts: usize) -> (secs: u64)
        requires
            attempts <= MAX_BACKOFF_ATTEMPTS,
        ensures
            secs == backoff_secs(attempts as nat),
    {
        delay_secs(attempts)
    }

    /// The state in which a call of this client starts: no retry made, and
    /// the client's budget to go.
    pub fn begin_call(&self) -> (state: RetryState)
        ensures
            state@ == (RetryView { attempts: 0, max_retries: self@.max_retries }),
    {
        RetryState::new(self.max_retries)
    }

    /// The request for `endpoint` by `method`.
    fn request(&self, method: Method, endpoint: &str) -> (request: Request)
        ensures
            request@ == self@.request(method, endpoint@),
    {
        proof {
            reveal_strlit("/");
        }
        let url = self.url.clone().concat("/").concat(endpoint);
        assert(url@ =~= self@.endpoint_url(endpoint@));
        Request { method, url, bearer_token: None }
    }

    /// The request that reads `endpoint`.
    pub fn get(&self, endpoint: &str) -> (request: Request)
        ensures
            request@ == self@.request(Method::Get, endpoint@),
    {
        self.request(Method::Get, endpoint)
    }

    /// The request that posts a body to `endpoint`.
    pub fn post(&self, endpoint: &str) -> (request: Request)
        ensures
            request@ == self@.request(Method::Post, endpoint@),
    {
        self.request(Method::Post, endpoint)
    }

    /// The request that puts a body at `endpoint`.
    pub fn put(&self, endpoint: &str) -> (request: Request)
        ensures
            request@ == self@.request(Method::Put, endpoint@),
    {
        self.request(Method::Put, endpoint)
    }

    /// The request that patches `endpoint` with a body.
    pub fn patch(&self, endpoint: &str) -> (request: Request)
        ensures
            request@ == self@.request(Method::Patch, endpoint@),
    {
        self.request(Method::Patch, endpoint)
    }

    /// The request that deletes `endpoint`.
    pub fn delete(&self, endpoint: &str) -> (request: Request)
        ensures
            request@ == self@.request(Method::Delete, endpoint@),
    {
        self.request(Method::Delete, endpoint)
    }
}

} // verus!
