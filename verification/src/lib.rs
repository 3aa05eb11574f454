//! An identity-gated request interception layer.
//!
//! The identity gate wraps an inner request handler and, for every request passing
//! through it, inspects the identity context attached to the request. A
//! request whose identity resolved to a subject is forwarded unchanged; any
//! other request is answered with a fixed `401 Unauthorized` JSON body and
//! never reaches the inner handler.

pub mod error;
pub mod gate;
