//! Transport credential types.
//!
//! The transport's certificate types are opaque here: a stored identity is
//! plain DER bytes, and these functions lift it into the transport's types
//! for endpoint configuration.  What each opaque value wraps is named —
//! [`cert_bytes`], [`key_bytes`], [`chain_ders`] — so that the lifts can
//! promise exactly which bytes the credentials carry.  In this transport,
//! parsing DER credentials only wraps the bytes — real validation happens at
//! handshake time — so a shallow structural check on the bytes is done
//! first, and that check is the only way lifting an identity can fail.

use vstd::prelude::*;

use crate::bootstrap::check_identity;
use crate::bootstrap::Identity;
use crate::errors::ServiceError;

verus! {

#[verifier::external_type_specification]
#[verifier::external_body]
pub struct ExCertificate(quinn::Certificate);

#[verifier::external_type_specification]
#[verifier::external_body]
pub struct ExPrivateKey(quinn::PrivateKey);

#[verifier::external_type_specification]
#[verifier::external_body]
pub struct ExCertificateChain(quinn::CertificateChain);

#[verifier::external_type_specification]
#[verifier::external_body]
pub struct ExParseError(quinn::ParseError);

/// The DER bytes a transport certificate wraps.
pub uninterp spec fn cert_bytes(c: quinn::Certificate) -> Seq<u8>;

/// The DER bytes a transport private key wraps.
pub uninterp spec fn key_bytes(k: quinn::PrivateKey) -> Seq<u8>;

/// The DER certificates a transport chain holds, in order.
pub uninterp spec fn chain_ders(c: quinn::CertificateChain) -> Seq<Seq<u8>>;

/// Relies on quinn::Certificate::from_der: its body wraps exactly the given
/// DER bytes, without inspecting them, and always returns Ok.
pub assume_specification[ quinn::Certificate::from_der ](der: &[u8]) -> (r: Result<
    quinn::Certificate,
    quinn::ParseError,
>)
    ensures
        r is Ok,
        r matches Ok(c) ==> cert_bytes(c) == der@,
;

/// Relies on quinn::PrivateKey::from_der: its body wraps exactly the given
/// DER bytes, without inspecting them, and always returns Ok.
pub assume_specification[ quinn::PrivateKey::from_der ](der: &[u8]) -> (r: Result<
    quinn::PrivateKey,
    quinn::ParseError,
>)
    ensures
        r is Ok,
        r matches Ok(k) ==> key_bytes(k) == der@,
;

/// Relies on quinn::CertificateChain::from_certs: it only collects the
/// given certificates, so the chain holds exactly the one certificate's
/// bytes.
#[verifier::external_body]
fn chain_of_single(cert: quinn::Certificate) -> (r: quinn::CertificateChain)
    ensures
        chain_ders(r) == seq![cert_bytes(cert)],
{
    quinn::CertificateChain::from_certs(vec![cert])
}

/// The server's transport credentials: its certificate chain and key.
pub struct ServerCreds {
    pub chain: quinn::CertificateChain,
    pub key: quinn::PrivateKey,
}

/// Lift an identity into transport credentials.  Succeeds exactly on a
/// plausible identity, and the credentials carry exactly the identity's
/// bytes: a one-certificate chain of its certificate, and its key.
pub fn parse_identity(id: &Identity) -> (r: Result<ServerCreds, ServiceError>)
    ensures
        r is Ok <==> id.plausible(),
        r matches Ok(c) ==> chain_ders(c.chain) == seq![id.cert_der@]
            && key_bytes(c.key) == id.key_der@,
        r matches Err(e) ==> e == ServiceError::Certificate,
{
    match check_identity(id) {
        Ok(()) => {},
        Err(e) => {
            return Err(e);
        },
    }
    let cert = quinn::Certificate::from_der(id.cert_der.as_slice()).unwrap();
    let chain = chain_of_single(cert);
    let key = quinn::PrivateKey::from_der(id.key_der.as_slice()).unwrap();
    Ok(ServerCreds { chain, key })
}

/// Lift a pinned peer certificate into the transport's certificate type.
/// In this transport the lift cannot fail, and the result wraps exactly the
/// given bytes.
pub fn certificate_from_der(der: &Vec<u8>) -> (r: quinn::Certificate)
    ensures
        cert_bytes(r) == der@,
{
    quinn::Certificate::from_der(der.as_slice()).unwrap()
}

} // verus!
