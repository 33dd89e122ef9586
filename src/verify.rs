use vstd::prelude::*;

use crate::checks::{
    check_domain, check_policy, check_signer, domain_outcome, policy_outcome, signer_outcome,
};
use crate::crypto::{keccak256, keccak256_of, secp256k1_recover, secp256k1_recovery};
use crate::encoding::{encode, encoding};
use crate::types::{DomainConfig, ErrorCode, Initialize, VerificationResult};

verus! {

/// The key that signed `hash`, where the recovery id names one of the four
/// candidate points and the curve yields a key.
pub open spec fn recovered_signer(hash: Seq<u8>, recovery_id: u8, signature: Seq<u8>) -> Option<Seq<u8>> {
    if recovery_id > 3 {
        None
    } else {
        secp256k1_recovery(hash, recovery_id, signature)
    }
}

/// The key that signed the canonical encoding of `vr`.
pub open spec fn attestation_signer(signature: Seq<u8>, recovery_id: u8, vr: VerificationResult) -> Option<Seq<u8>> {
    recovered_signer(keccak256_of(encoding(vr)), recovery_id, signature)
}

/// The outcome of verifying `vr`: the first check that fails decides it.
pub open spec fn verification_outcome(
    ctx: Initialize,
    signature: Seq<u8>,
    recovery_id: u8,
    vr: VerificationResult,
    trust_anchor: Seq<u8>,
    config: DomainConfig,
) -> Result<(), ErrorCode> {
    if domain_outcome(vr, config) is Err {
        domain_outcome(vr, config)
    } else if policy_outcome(vr, ctx, config) is Err {
        policy_outcome(vr, ctx, config)
    } else {
        signer_outcome(attestation_signer(signature, recovery_id, vr), trust_anchor)
    }
}

/// Recovers the key that produced `signature` over `hash`.
pub fn recover_signer(hash: &[u8; 32], recovery_id: u8, signature: &[u8; 64]) -> (r: Option<[u8; 64]>)
    ensures
        match r {
            Some(key) => recovered_signer(hash@, recovery_id, signature@) == Some(key@),
            None => recovered_signer(hash@, recovery_id, signature@) is None,
        },
{
    if recovery_id > 3 {
        return None;
    }
    match secp256k1_recover(hash, recovery_id, signature) {
        Ok(key) => Some(key),
        Err(_) => None,
    }
}

/// Verifies that `verification_result` was issued by `trust_anchor` for the
/// deployment of `config`, is presented by its subject, and is unexpired.
pub fn initialize(
    ctx: &Initialize,
    signature: [u8; 64],
    recovery_id: u8,
    verification_result: &VerificationResult,
    trust_anchor: &[u8; 64],
    config: &DomainConfig,
) -> (r: Result<(), ErrorCode>)
    requires
        verification_result.wf(),
    ensures
        r == verification_outcome(
            *ctx,
            signature@,
            recovery_id,
            *verification_result,
            trust_anchor@,
            *config,
        ),
{
    let domain = check_domain(verification_result, config);
    if domain.is_err() {
        return domain;
    }
    let policy = check_policy(verification_result, ctx, config);
    if policy.is_err() {
        return policy;
    }
    let message = encode(verification_result);
    let hash = keccak256(message.as_slice());
    let recovered = recover_signer(&hash, recovery_id, &signature);
    check_signer(recovered, trust_anchor)
}

} // verus!
