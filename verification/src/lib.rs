//! Typed bindings for a market-data REST API.
//!
//! Every operation of the API is described by an [`endpoint::Endpoint`]:
//! a request shape, a response shape, and the pure conversions between
//! those and the bytes on the wire. Nothing in this crate performs I/O;
//! a dispatcher sends the request that an endpoint describes and hands
//! the status and body it got back to [`endpoint::Endpoint::evaluate`].
pub mod data;
pub mod endpoint;
pub mod error;
pub mod json;
pub mod urlencoded;
pub mod util;
