use vstd::prelude::*;

use crate::types::{DomainConfig, ErrorCode, Initialize, VerificationResult};

verus! {

/// The outcome of the domain-separator checks, in their order: name,
/// version, then deployment context.
pub open spec fn domain_outcome(vr: VerificationResult, config: DomainConfig) -> Result<(), ErrorCode> {
    if vr.name@ != config.name@ {
        Err(ErrorCode::InvalidName)
    } else if vr.version@ != config.version@ {
        Err(ErrorCode::InvalidVersion)
    } else if vr.cluster@ != config.cluster@ {
        Err(ErrorCode::InvalidCluster)
    } else {
        Ok(())
    }
}

/// The outcome of the policy checks, in their order: the presenter is the
/// subject, the presenter signed the call, the attestation is unexpired, and
/// it carries the configured credential type.
pub open spec fn policy_outcome(vr: VerificationResult, caller: Initialize, config: DomainConfig) -> Result<(), ErrorCode> {
    if caller.subject@ != vr.subject@ {
        Err(ErrorCode::SubjectMismatch)
    } else if !caller.is_signer {
        Err(ErrorCode::SubjectIsNotSigner)
    } else if !(caller.unix_timestamp < vr.expiration) {
        Err(ErrorCode::Expired)
    } else if vr.schema@ != config.schema@ {
        Err(ErrorCode::InvalidSchema)
    } else {
        Ok(())
    }
}

/// The outcome of comparing a recovered key with the trust anchor.
pub open spec fn signer_outcome(recovered: Option<Seq<u8>>, trust_anchor: Seq<u8>) -> Result<(), ErrorCode> {
    match recovered {
        None => Err(ErrorCode::SignatureRecoveryFailed),
        Some(key) => if key == trust_anchor {
            Ok(())
        } else {
            Err(ErrorCode::UntrustedSigner)
        },
    }
}

/// Compares two byte strings.
pub fn bytes_equal(a: &[u8], b: &[u8]) -> (r: bool)
    ensures
        r == (a@ == b@),
{
    if a.len() != b.len() {
        return false;
    }
    let mut i: usize = 0;
    while i < a.len()
        invariant
            a@.len() == b@.len(),
            i <= a@.len(),
            forall|j: int| 0 <= j < i ==> a@[j] == b@[j],
        decreases a@.len() - i,
    {
        if a[i] != b[i] {
            return false;
        }
        i = i + 1;
    }
    assert(a@ =~= b@);
    true
}

/// Checks the domain separator of `vr` against `config`.
pub fn check_domain(vr: &VerificationResult, config: &DomainConfig) -> (r: Result<(), ErrorCode>)
    ensures
        r == domain_outcome(*vr, *config),
{
    if vr.name != config.name {
        return Err(ErrorCode::InvalidName);
    }
    if vr.version != config.version {
        return Err(ErrorCode::InvalidVersion);
    }
    if vr.cluster != config.cluster {
        return Err(ErrorCode::InvalidCluster);
    }
    Ok(())
}

/// Checks that `caller` may present `vr` now, and that `vr` carries the
/// credential type of `config`.
pub fn check_policy(vr: &VerificationResult, caller: &Initialize, config: &DomainConfig) -> (r: Result<(), ErrorCode>)
    ensures
        r == policy_outcome(*vr, *caller, *config),
{
    if !bytes_equal(caller.subject.as_slice(), vr.subject.as_slice()) {
        return Err(ErrorCode::SubjectMismatch);
    }
    if !caller.is_signer {
        return Err(ErrorCode::SubjectIsNotSigner);
    }
    if !(caller.unix_timestamp < vr.expiration) {
        return Err(ErrorCode::Expired);
    }
    if vr.schema != config.schema {
        return Err(ErrorCode::InvalidSchema);
    }
    Ok(())
}

/// Accepts a recovered key only where it is the trust anchor.
pub fn check_signer(recovered: Option<[u8; 64]>, trust_anchor: &[u8; 64]) -> (r: Result<(), ErrorCode>)
    ensures
        r == signer_outcome(
            match recovered {
                Some(key) => Some(key@),
                None => None,
            },
            trust_anchor@,
        ),
{
    match recovered {
        None => Err(ErrorCode::SignatureRecoveryFailed),
        Some(key) => if bytes_equal(key.as_slice(), trust_anchor.as_slice()) {
            Ok(())
        } else {
            Err(ErrorCode::UntrustedSigner)
        },
    }
}

} // verus!
