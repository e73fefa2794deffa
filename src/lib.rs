//! A typed client for the key/value endpoints of a Consul-style store.
//!
//! Requests are described by [`request::Request`] values, built from one
//! builder per endpoint; the HTTP transport is supplied by the caller through
//! the [`kv::Client`] trait. [`target`] writes the URL target of a request and
//! [`headers`] reads the store's metadata from the headers of its answer.
//! Answers arrive as [`response::ApiResponse`] envelopes, and the JSON
//! variants of the reads parse the stored payload. The module [`model`]
//! states what the store does with each request, and proves the round-trip
//! laws of the operations against it.

pub mod request;
pub mod response;
pub mod kv;
pub mod model;
pub mod target;
pub mod headers;
