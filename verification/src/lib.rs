//! Credential exchange with a remote access-control endpoint.
//!
//! The crate builds the request of one authentication attempt, decides what
//! has to happen after each answer of the codec and of the transport, and
//! judges the decoded response. Encoding, decoding and the HTTPS round trip
//! are done by the caller; the crate only says when, and with what.

pub mod auth;
pub mod model;
pub mod request_id;
pub mod util;
