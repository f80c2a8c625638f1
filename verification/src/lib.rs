//! A small HTTP request router over a keyed object store.
//!
//! The library decides, from an HTTP method, a URL path and an optional
//! `key` query parameter, which of four behaviours a request gets: a
//! liveness reply, a listing of the stored keys, a create, or a delete.
//! It validates the required parameter, renders every response body, and
//! proves the routing table against a mathematical model. An in-memory
//! store lets the whole request cycle run, and be reasoned about, without
//! a remote backend; callers that talk to a real object store perform the
//! returned action themselves and feed the outcome back in.

pub mod handler;
pub mod laws;
pub mod response;
pub mod router;
pub mod store;
pub mod text;
