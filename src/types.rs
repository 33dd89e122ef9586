use vstd::prelude::*;
use vstd::utf8::encode_utf8;

verus! {

/// A signed claim that `subject` holds the credential named by `schema`,
/// valid strictly before `expiration` (unix seconds).
pub struct VerificationResult {
    pub name: String,
    pub version: String,
    pub cluster: String,
    pub subject: [u8; 32],
    pub expiration: i64,
    pub schema: String,
}

/// The party presenting an attestation, as the calling infrastructure
/// authenticated it, and the time of the call.
pub struct Initialize {
    /// Identity of the presenting party.
    pub subject: [u8; 32],
    /// Whether that party signed the enclosing call.
    pub is_signer: bool,
    /// Current unix time in seconds.
    pub unix_timestamp: i64,
}

/// The values one deployment expects in every attestation it accepts.
pub struct DomainConfig {
    pub name: String,
    pub version: String,
    pub cluster: String,
    pub schema: String,
}

/// Why an attestation was rejected; each kind belongs to one check.
#[derive(Clone, Copy, Debug, PartialEq, Eq, Structural)]
pub enum ErrorCode {
    InvalidName,
    InvalidVersion,
    InvalidCluster,
    SubjectMismatch,
    SubjectIsNotSigner,
    Expired,
    InvalidSchema,
    SignatureRecoveryFailed,
    UntrustedSigner,
}

impl VerificationResult {
    /// Every string field is short enough for its `u32` length prefix.
    pub open spec fn wf(&self) -> bool {
        &&& encode_utf8(self.name@).len() <= u32::MAX
        &&& encode_utf8(self.version@).len() <= u32::MAX
        &&& encode_utf8(self.cluster@).len() <= u32::MAX
        &&& encode_utf8(self.schema@).len() <= u32::MAX
    }
}

impl DomainConfig {
    /// The configuration of a deployment whose context is `cluster`, with the
    /// registry's name and version and the KYC credential type.
    pub fn new(cluster: &str) -> (r: DomainConfig)
        ensures
            r.name@ == "VerificationRegistry"@,
            r.version@ == "1.0"@,
            r.cluster@ == cluster@,
            r.schema@ == "centre.io/credentials/kyc"@,
    {
        DomainConfig {
            name: "VerificationRegistry".to_owned(),
            version: "1.0".to_owned(),
            cluster: cluster.to_owned(),
            schema: "centre.io/credentials/kyc".to_owned(),
        }
    }
}

} // verus!
