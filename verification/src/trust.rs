//! Trusted-peer loading and the trust policy.
//!
//! A client may pin one peer certificate, stored as a single file.  Absence
//! of the file is not an error: the client falls back to the system trust
//! bundle.  Any other read failure is a storage error.

use vstd::prelude::*;

use crate::bootstrap::StorageRead;
use crate::errors::ServiceError;

verus! {

/// How a connecting endpoint decides which peers to trust.
#[derive(Clone, Debug, PartialEq, Eq)]
pub enum TrustPolicy {
    /// Accept any peer: trust is established on first use.
    TrustAny,
    /// Accept only the peer presenting this pinned DER certificate.
    TrustPinned(Vec<u8>),
    /// Verify the peer against the system's certificate authority bundle.
    SystemCa,
}

/// Interpret the read of the trusted-peer file: its bytes if present,
/// absent without error if the file does not exist, a storage error for any
/// other failure.
pub fn load_trusted_peer(read: StorageRead) -> (r: Result<Option<Vec<u8>>, ServiceError>)
    ensures
        read matches StorageRead::Found(b) ==> (r matches Ok(o) && o matches Some(c)
            && c@ == b@),
        read is Missing ==> (r matches Ok(o) && o is None),
        read is Failed ==> (r matches Err(e) && e == ServiceError::Storage),
{
    match read {
        StorageRead::Found(b) => Ok(Some(b)),
        StorageRead::Missing => Ok(None),
        StorageRead::Failed => Err(ServiceError::Storage),
    }
}

/// The policy a loaded trusted-peer certificate yields: pin it when
/// present, fall back to the system bundle when absent.
pub fn policy_for(peer: Option<Vec<u8>>) -> (p: TrustPolicy)
    ensures
        peer matches Some(b) ==> (p matches TrustPolicy::TrustPinned(c) && c@ == b@),
        peer is None ==> p is SystemCa,
{
    match peer {
        Some(b) => TrustPolicy::TrustPinned(b),
        None => TrustPolicy::SystemCa,
    }
}

} // verus!
