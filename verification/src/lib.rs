//! A typed client library for the PokéAPI read-only REST interface.
//!
//! The library turns a resource kind and an id or name into the URL of the
//! matching document, decodes JSON response bodies into strongly typed
//! records under a strict policy (a missing required field fails the whole
//! decode), and lets any resource reference embedded in a record be followed
//! to the full document it points to.
//!
//! Network transport is deliberately kept outside of this crate: every
//! operation here is a pure computation from plain values (base URLs, path
//! segments, response bodies) to plain values, so a caller drives the HTTP
//! exchange with whatever client it prefers and hands the bodies back.

pub mod client;
pub mod decode;
pub mod endpoint;
pub mod error;
pub mod follow;
pub mod json;
pub mod model;
pub mod snapshot;
pub mod text;
