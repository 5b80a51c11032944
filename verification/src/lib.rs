//! A resilient HTTP client core: request descriptors, credential attachment,
//! and a retry engine with exponential backoff.
//!
//! The crate holds the decisions of the client and leaves the transport to its
//! caller: a call is driven by feeding the outcome of every attempt to
//! [`retry::RetryState::on_outcome`], which answers with the next step.

pub mod auth;
pub mod backoff;
pub mod client;
pub mod request;
pub mod retry;
pub mod run;
pub mod status;

pub use auth::{Authenticator, OAuth, TokenAuth};
pub use client::SNClient;
pub use request::{Method, Request};
pub use retry::{Failure, Outcome, RetryState, Step};
pub use status::StatusClass;
