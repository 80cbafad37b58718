//! Trust bootstrap: load or create the endpoint's identity.
//!
//! The identity is a DER certificate and private key pair, persisted as two
//! files and reused across restarts.  The surrounding process performs the
//! file reads and writes and reports their outcomes; the decisions — reuse
//! stored bytes unchanged, generate afresh, or fail — are made here.
//! Certificate generation itself is an outside computation, called through a
//! trusted wrapper.

use vstd::prelude::*;

use crate::errors::ServiceError;

verus! {

/// An endpoint identity: certificate and private key, both DER bytes.
#[derive(Clone, Debug, PartialEq, Eq)]
pub struct Identity {
    pub cert_der: Vec<u8>,
    pub key_der: Vec<u8>,
}

/// A shallow structural check on stored certificate bytes: every DER
/// certificate is an ASN.1 SEQUENCE, whose first byte is 0x30.  Full
/// validation is the transport's business at handshake time.
pub open spec fn plausible_cert_der(bytes: Seq<u8>) -> bool {
    bytes.len() > 0 && bytes[0] == 0x30u8
}

impl Identity {
    /// A stored identity is plausible when the certificate looks like DER
    /// and the key is not empty.
    pub open spec fn plausible(self) -> bool {
        plausible_cert_der(self.cert_der@) && self.key_der@.len() > 0
    }
}

/// What one attempt to read a stored file produced.
#[derive(Clone, Debug, PartialEq, Eq)]
pub enum StorageRead {
    /// The file exists; these are its bytes.
    Found(Vec<u8>),
    /// The file does not exist.  Not an error.
    Missing,
    /// The file exists but could not be read.
    Failed,
}

/// Spec-level model of a storage read.
pub enum ReadModel {
    Found(Seq<u8>),
    Missing,
    Failed,
}

impl View for StorageRead {
    type V = ReadModel;

    open spec fn view(&self) -> ReadModel {
        match self {
            StorageRead::Found(b) => ReadModel::Found(b@),
            StorageRead::Missing => ReadModel::Missing,
            StorageRead::Failed => ReadModel::Failed,
        }
    }
}

/// What the bootstrap decides to do, given the stored state.
#[derive(Clone, Debug, PartialEq, Eq)]
pub enum BootstrapPlan {
    /// Both files were read: return their bytes unchanged.
    UseStored(Identity),
    /// At least one file is missing: generate a fresh identity and persist
    /// it before returning it.
    Generate,
    /// A file exists but could not be read: fatal to startup.
    Fail(ServiceError),
}

/// Spec-level model of a bootstrap plan.
pub enum PlanModel {
    UseStored(Seq<u8>, Seq<u8>),
    Generate,
    Fail(ServiceError),
}

impl View for BootstrapPlan {
    type V = PlanModel;

    open spec fn view(&self) -> PlanModel {
        match self {
            BootstrapPlan::UseStored(id) => PlanModel::UseStored(id.cert_der@, id.key_der@),
            BootstrapPlan::Generate => PlanModel::Generate,
            BootstrapPlan::Fail(e) => PlanModel::Fail(*e),
        }
    }
}

/// The bootstrap decision as a function of the two file reads.  A missing
/// file means first run: generate.  A failed read is a storage error.  Two
/// found files are the identity, bytes unchanged.
pub open spec fn plan_model(cert: ReadModel, key: ReadModel) -> PlanModel {
    match (cert, key) {
        (ReadModel::Failed, _) => PlanModel::Fail(ServiceError::Storage),
        (ReadModel::Missing, _) => PlanModel::Generate,
        (ReadModel::Found(_), ReadModel::Failed) => PlanModel::Fail(ServiceError::Storage),
        (ReadModel::Found(_), ReadModel::Missing) => PlanModel::Generate,
        (ReadModel::Found(c), ReadModel::Found(k)) => PlanModel::UseStored(c, k),
    }
}

/// Decide the bootstrap step from the outcome of reading the certificate
/// file and the key file.
pub fn plan_bootstrap(cert_read: StorageRead, key_read: StorageRead) -> (p: BootstrapPlan)
    ensures
        p@ == plan_model(cert_read@, key_read@),
{
    match cert_read {
        StorageRead::Failed => BootstrapPlan::Fail(ServiceError::Storage),
        StorageRead::Missing => BootstrapPlan::Generate,
        StorageRead::Found(c) => match key_read {
            StorageRead::Failed => BootstrapPlan::Fail(ServiceError::Storage),
            StorageRead::Missing => BootstrapPlan::Generate,
            StorageRead::Found(k) => BootstrapPlan::UseStored(
                Identity { cert_der: c, key_der: k },
            ),
        },
    }
}

/// Relies on rcgen::generate_simple_self_signed, Certificate::serialize_der,
/// and Certificate::serialize_private_key_der: a fresh self-signed
/// certificate valid for the given host name, and its private key, both as
/// DER bytes.  The key pair is generated inside generate_simple_self_signed,
/// so serialize_private_key_der cannot hit its remote-key panic.  The host
/// name must be ASCII: the certificate serializer writes it as an ASN.1
/// IA5String and aborts on any other character, so the `requires` rules
/// those inputs out.  The bytes are fresh key material, but their shape is
/// fixed: the certificate serializer emits one ASN.1 SEQUENCE (first byte
/// 0x30) and the key serializer a non-empty PKCS#8 document.
#[verifier::external_body]
fn generate_self_signed(host: &str) -> (r: Option<(Vec<u8>, Vec<u8>)>)
    requires
        vstd::string::is_ascii(host),
    ensures
        r matches Some(p) ==> plausible_cert_der(p.0@) && p.1@.len() > 0,
{
    let cert = match rcgen::generate_simple_self_signed(vec![host.to_string()]) {
        Ok(c) => c,
        Err(_) => {
            return None;
        },
    };
    let cert_der = match cert.serialize_der() {
        Ok(d) => d,
        Err(_) => {
            return None;
        },
    };
    let key_der = cert.serialize_private_key_der();
    Some((cert_der, key_der))
}

/// Generate a fresh self-signed identity for the given host name.  A host
/// that is not ASCII cannot be named in a certificate and is rejected
/// before the generator is called.  Generation itself is an outside
/// computation with fresh randomness: on success the identity is whatever
/// it produced — always a plausible one, which the rest of the pipeline
/// accepts; failure is a certificate error.
pub fn generate_identity(host: &str) -> (r: Result<Identity, ServiceError>)
    ensures
        r matches Ok(id) ==> id.plausible(),
        r matches Err(e) ==> e == ServiceError::Certificate,
        !vstd::string::is_ascii(host) ==> r is Err,
{
    if !host.is_ascii() {
        return Err(ServiceError::Certificate);
    }
    match generate_self_signed(host) {
        Some((cert_der, key_der)) => Ok(Identity { cert_der, key_der }),
        None => Err(ServiceError::Certificate),
    }
}

/// Seal a first-run bootstrap: the freshly generated identity is returned
/// exactly as persisted, and a failure to persist either file is a storage
/// error, fatal to startup.
pub fn finish_generation(identity: Identity, persisted: bool) -> (r: Result<
    Identity,
    ServiceError,
>)
    ensures
        persisted ==> (r matches Ok(id) && id.cert_der@ == identity.cert_der@
            && id.key_der@ == identity.key_der@),
        !persisted ==> (r matches Err(e) && e == ServiceError::Storage),
{
    if persisted {
        Ok(identity)
    } else {
        Err(ServiceError::Storage)
    }
}

/// Check a stored or generated identity before it configures the endpoint.
pub fn check_identity(id: &Identity) -> (r: Result<(), ServiceError>)
    ensures
        r is Ok <==> id.plausible(),
        r matches Err(e) ==> e == ServiceError::Certificate,
{
    if id.cert_der.len() == 0 {
        return Err(ServiceError::Certificate);
    }
    if id.cert_der[0] != 0x30 {
        return Err(ServiceError::Certificate);
    }
    if id.key_der.len() == 0 {
        return Err(ServiceError::Certificate);
    }
    Ok(())
}

/// Idempotent bootstrap: a restart that finds both stored files reuses
/// exactly the stored bytes, and a restart after the files were deleted
/// deterministically takes the generate-and-persist path.
pub proof fn lemma_bootstrap_idempotent(cert: Seq<u8>, key: Seq<u8>)
    ensures
        plan_model(ReadModel::Found(cert), ReadModel::Found(key))
            == PlanModel::UseStored(cert, key),
        plan_model(ReadModel::Missing, ReadModel::Missing) is Generate,
{
}

} // verus!
