//! Core logic of a minimal secure, multiplexed request/response service.
//!
//! The library holds the parts of the service that are plain computation:
//! the wire frame codec, the per-stream request handler's decisions, the
//! per-connection supervisor state machine, the identity bootstrap and
//! trust-policy decisions, and the client request builder.  The surrounding
//! process (socket binding, stream I/O, task spawning, file storage) drives
//! these functions and performs the actions they decide on.

pub mod bootstrap;
pub mod client;
pub mod config;
pub mod errors;
pub mod frame;
pub mod handler;
pub mod supervisor;
pub mod tls;
pub mod trust;
