//! A small client library for a crates.io-style registry API.
//!
//! The library holds everything about a request that can be decided without
//! touching the network, the clock or another thread:
//!
//! - [`query`]: the options of a query, and the raw query strings that
//!   describe them;
//! - [`endpoint`] and [`client`]: the URLs of the registry's endpoints, the
//!   requests that go to them, and the decision when a request is sent;
//! - [`limiter`]: the rate limiter behind that decision;
//! - [`uri`]: the check that a URL is one that the transport can send to;
//! - [`decode`]: what becomes of the bytes that come back;
//! - [`api`]: the records that the registry answers with.
//!
//! A caller puts a request to the client together with the time, and is told
//! what to do: send the request, wait and ask again, or give up. Sending,
//! waiting and reading the clock are the caller's part.

pub mod api;
pub mod client;
pub mod decode;
pub mod endpoint;
pub mod error;
pub mod limiter;
pub mod query;
pub mod text;
pub mod uri;

pub use client::Client;
pub use query::{Category, Query, Sorting};
