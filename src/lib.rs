//! A container-image registry's response dispatch and its catalog client.
//!
//! `response` turns the outcome of a registry endpoint into the final wire
//! response and attaches the protocol version header on every response that
//! could be built. `repositories` decodes the catalog listing on the client side
//! and drives one catalog request through to its delivery or cancellation.

pub mod repositories;
pub mod response;
