//! Endpoint configuration.
//!
//! One endpoint exists per process, bound either to listen (server) or to
//! dial (client).  Its security configuration is assembled from the
//! bootstrap and trust modules and validated here before the transport is
//! configured with it.

use vstd::prelude::*;

use crate::bootstrap::Identity;
use crate::errors::ServiceError;
use crate::trust::TrustPolicy;

verus! {

/// The fixed port the server variant listens on.
pub const DEFAULT_PORT: u16 = 4332;

/// Whether the endpoint listens or dials.
#[derive(Clone, Copy, Debug, PartialEq, Eq, Structural)]
pub enum Role {
    Client,
    Server,
}

/// Security configuration of the one endpoint: role, identity, trust
/// policy, and transport-level timing parameters.
#[derive(Clone, Debug, PartialEq, Eq)]
pub struct SecurityConfig {
    pub role: Role,
    /// Required for a server; optional for a client.
    pub identity: Option<Identity>,
    pub trust: TrustPolicy,
    /// Connection idle timeout, in milliseconds.
    pub idle_timeout_ms: u64,
    /// Keep-alive interval, in milliseconds.
    pub keep_alive_ms: u64,
}

impl SecurityConfig {
    /// A configuration is well formed when a server role carries an
    /// identity.
    pub open spec fn wf(self) -> bool {
        self.role is Server ==> self.identity is Some
    }

    /// Validate the configuration before the endpoint is bound.  A server
    /// without an identity cannot complete any handshake: connect error.
    pub fn validate(&self) -> (r: Result<(), ServiceError>)
        ensures
            r is Ok <==> self.wf(),
            r matches Err(e) ==> e == ServiceError::Connect,
    {
        match self.role {
            Role::Server => match &self.identity {
                Some(_) => Ok(()),
                None => Err(ServiceError::Connect),
            },
            Role::Client => Ok(()),
        }
    }
}

} // verus!
