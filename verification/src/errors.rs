//! Error taxonomy of the service.
//!
//! Every failure the core can decide on is one of these variants.  Trust
//! bootstrap and endpoint configuration failures are fatal to startup;
//! connection-level failures are scoped to one connection; stream-level
//! failures are scoped to one stream.

use vstd::prelude::*;

verus! {

/// One error kind for each failure the service distinguishes.
#[derive(Clone, Copy, Debug, PartialEq, Eq, Structural)]
pub enum ServiceError {
    /// Identity or trusted-peer storage could not be read or written.
    Storage,
    /// A stored or generated identity is malformed.
    Certificate,
    /// Handshake, name verification, or connect-time configuration failed.
    Connect,
    /// The connection failed for a transport reason other than a clean
    /// application-initiated close.
    Transport,
    /// A request body exceeded the receive cap.
    RequestTooLarge,
    /// The stream's receive half failed before the request completed.
    Read,
    /// The stream's send half failed while writing the response.
    Write,
    /// Received bytes do not form a well-formed frame.
    Framing,
}

} // verus!
