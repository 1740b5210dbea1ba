//! A transactional email client for a JSON-over-HTTP delivery service, with
//! the subscriber address type it works on and the subscription form it serves.
//!
//! The library computes what goes on the wire and judges what comes back;
//! the network exchange itself is left to the caller.

pub mod domain;
pub mod email_client;
pub mod message;
pub mod routes;
