use libsecp256k1::{Message, PublicKey, SecretKey};
use verity::checks::{bytes_equal, check_domain, check_policy, check_signer};
use verity::encoding::encode;
use verity::types::{DomainConfig, ErrorCode, Initialize, VerificationResult};
use verity::verify::{initialize, recover_signer};

const NOW: i64 = 1_700_000_000;
const EXPIRATION: i64 = 1_800_000_000;

fn subject() -> [u8; 32] {
    let mut s = [0u8; 32];
    for (i, b) in s.iter_mut().enumerate() {
        *b = (i as u8).wrapping_mul(7).wrapping_add(3);
    }
    s
}

fn attestation() -> VerificationResult {
    VerificationResult {
        name: "VerificationRegistry".to_string(),
        version: "1.0".to_string(),
        cluster: "localnet".to_string(),
        subject: subject(),
        expiration: EXPIRATION,
        schema: "centre.io/credentials/kyc".to_string(),
    }
}

fn caller() -> Initialize {
    Initialize { subject: subject(), is_signer: true, unix_timestamp: NOW }
}

fn config() -> DomainConfig {
    DomainConfig::new("localnet")
}

fn secret(seed: u8) -> SecretKey {
    SecretKey::parse(&[seed; 32]).unwrap()
}

fn anchor_of(key: &SecretKey) -> [u8; 64] {
    let full = PublicKey::from_secret_key(key).serialize();
    let mut out = [0u8; 64];
    out.copy_from_slice(&full[1..65]);
    out
}

fn sign(vr: &VerificationResult, key: &SecretKey) -> ([u8; 64], u8) {
    let digest = solana_program::keccak::hash(&encode(vr)).to_bytes();
    let (sig, rid) = libsecp256k1::sign(&Message::parse(&digest), key);
    (sig.serialize(), rid.serialize())
}

fn run(ctx: &Initialize, sig: [u8; 64], rid: u8, vr: &VerificationResult, anchor: &[u8; 64]) -> Result<(), ErrorCode> {
    initialize(ctx, sig, rid, vr, anchor, &config())
}

#[test]
fn accepts_attestation_signed_by_anchor() {
    let key = secret(0x11);
    let vr = attestation();
    let (sig, rid) = sign(&vr, &key);
    assert_eq!(run(&caller(), sig, rid, &vr, &anchor_of(&key)), Ok(()));
}

#[test]
fn changed_name_rejected_before_recovery() {
    let key = secret(0x11);
    let mut vr = attestation();
    let (sig, rid) = sign(&vr, &key);
    vr.name = "VerificationRegistrY".to_string();
    assert_eq!(run(&caller(), sig, rid, &vr, &anchor_of(&key)), Err(ErrorCode::InvalidName));
}

#[test]
fn changed_version_rejected_before_recovery() {
    let key = secret(0x11);
    let mut vr = attestation();
    let (sig, rid) = sign(&vr, &key);
    vr.version = "1.1".to_string();
    assert_eq!(run(&caller(), sig, rid, &vr, &anchor_of(&key)), Err(ErrorCode::InvalidVersion));
}

#[test]
fn changed_cluster_rejected_before_recovery() {
    let key = secret(0x11);
    let mut vr = attestation();
    let (sig, rid) = sign(&vr, &key);
    vr.cluster = "mainnet".to_string();
    assert_eq!(run(&caller(), sig, rid, &vr, &anchor_of(&key)), Err(ErrorCode::InvalidCluster));
    // an invalid recovery id does not change the outcome: no recovery is tried
    assert_eq!(run(&caller(), sig, 9, &vr, &anchor_of(&key)), Err(ErrorCode::InvalidCluster));
}

#[test]
fn expiration_equal_to_now_is_expired() {
    let key = secret(0x11);
    let mut vr = attestation();
    vr.expiration = NOW;
    let (sig, rid) = sign(&vr, &key);
    assert_eq!(run(&caller(), sig, rid, &vr, &anchor_of(&key)), Err(ErrorCode::Expired));
    vr.expiration = NOW + 1;
    let (sig, rid) = sign(&vr, &key);
    assert_eq!(run(&caller(), sig, rid, &vr, &anchor_of(&key)), Ok(()));
    vr.expiration = NOW - 1;
    let (sig, rid) = sign(&vr, &key);
    assert_eq!(run(&caller(), sig, rid, &vr, &anchor_of(&key)), Err(ErrorCode::Expired));
}

#[test]
fn other_presenter_is_subject_mismatch() {
    let key = secret(0x11);
    let vr = attestation();
    let (sig, rid) = sign(&vr, &key);
    let mut ctx = caller();
    ctx.subject[0] ^= 0xff;
    assert_eq!(run(&ctx, sig, rid, &vr, &anchor_of(&key)), Err(ErrorCode::SubjectMismatch));
    assert_eq!(run(&ctx, [0u8; 64], 7, &vr, &anchor_of(&key)), Err(ErrorCode::SubjectMismatch));
}

#[test]
fn presenter_that_did_not_sign_is_refused() {
    let key = secret(0x11);
    let vr = attestation();
    let (sig, rid) = sign(&vr, &key);
    let mut ctx = caller();
    ctx.is_signer = false;
    assert_eq!(run(&ctx, sig, rid, &vr, &anchor_of(&key)), Err(ErrorCode::SubjectIsNotSigner));
}

#[test]
fn other_credential_type_is_refused() {
    let key = secret(0x11);
    let mut vr = attestation();
    vr.schema = "centre.io/credentials/aml".to_string();
    let (sig, rid) = sign(&vr, &key);
    assert_eq!(run(&caller(), sig, rid, &vr, &anchor_of(&key)), Err(ErrorCode::InvalidSchema));
}

#[test]
fn signature_of_other_key_is_untrusted() {
    let vr = attestation();
    let (sig, rid) = sign(&vr, &secret(0x22));
    assert_eq!(run(&caller(), sig, rid, &vr, &anchor_of(&secret(0x11))), Err(ErrorCode::UntrustedSigner));
}

#[test]
fn flipped_byte_after_signing_is_untrusted() {
    let key = secret(0x11);
    let anchor = anchor_of(&key);
    let original = attestation();
    let (sig, rid) = sign(&original, &key);
    for i in 0..32 {
        let mut vr = attestation();
        vr.subject[i] ^= 0x01;
        let ctx = Initialize { subject: vr.subject, is_signer: true, unix_timestamp: NOW };
        assert_eq!(run(&ctx, sig, rid, &vr, &anchor), Err(ErrorCode::UntrustedSigner));
    }
    for i in 0..8 {
        let mut vr = attestation();
        let mut bytes = vr.expiration.to_le_bytes();
        bytes[i] ^= 0x01;
        vr.expiration = i64::from_le_bytes(bytes);
        assert_eq!(run(&caller(), sig, rid, &vr, &anchor), Err(ErrorCode::UntrustedSigner));
    }
}

#[test]
fn recovery_id_out_of_range_fails_recovery() {
    let key = secret(0x11);
    let vr = attestation();
    let (sig, _) = sign(&vr, &key);
    for rid in [4u8, 5, 27, 255] {
        assert_eq!(run(&caller(), sig, rid, &vr, &anchor_of(&key)), Err(ErrorCode::SignatureRecoveryFailed));
    }
}

#[test]
fn recover_signer_yields_signing_key() {
    let key = secret(0x33);
    let digest = [0x5au8; 32];
    let (sig, rid) = libsecp256k1::sign(&Message::parse(&digest), &key);
    assert_eq!(recover_signer(&digest, rid.serialize(), &sig.serialize()), Some(anchor_of(&key)));
    assert_eq!(recover_signer(&digest, 4, &sig.serialize()), None);
    // a zero signature is no point on the curve
    assert_eq!(recover_signer(&digest, 0, &[0u8; 64]), None);
}

#[test]
fn encoding_is_length_prefixed_little_endian() {
    let vr = VerificationResult {
        name: "ab".to_string(),
        version: "".to_string(),
        cluster: "\u{e9}".to_string(),
        subject: [9u8; 32],
        expiration: -2,
        schema: "k".to_string(),
    };
    let mut expected: Vec<u8> = vec![2, 0, 0, 0, b'a', b'b', 0, 0, 0, 0, 2, 0, 0, 0, 0xc3, 0xa9];
    expected.extend_from_slice(&[9u8; 32]);
    expected.extend_from_slice(&[0xfe, 0xff, 0xff, 0xff, 0xff, 0xff, 0xff, 0xff]);
    expected.extend_from_slice(&[1, 0, 0, 0, b'k']);
    assert_eq!(encode(&vr), expected);
}

#[test]
fn encoding_of_large_expiration() {
    let mut vr = attestation();
    vr.expiration = 0x0102_0304_0506_0708;
    let bytes = encode(&vr);
    let at = 4 + 20 + 4 + 3 + 4 + 8 + 32;
    assert_eq!(&bytes[at..at + 8], &[8, 7, 6, 5, 4, 3, 2, 1]);
    assert_eq!(bytes.len(), at + 8 + 4 + 25);
}

#[test]
fn first_failing_domain_check_wins() {
    let mut vr = attestation();
    vr.name = "x".to_string();
    vr.version = "2".to_string();
    vr.cluster = "devnet".to_string();
    assert_eq!(check_domain(&vr, &config()), Err(ErrorCode::InvalidName));
    vr.name = "VerificationRegistry".to_string();
    assert_eq!(check_domain(&vr, &config()), Err(ErrorCode::InvalidVersion));
    vr.version = "1.0".to_string();
    assert_eq!(check_domain(&vr, &config()), Err(ErrorCode::InvalidCluster));
    vr.cluster = "localnet".to_string();
    assert_eq!(check_domain(&vr, &config()), Ok(()));
}

#[test]
fn domain_checks_are_case_sensitive() {
    let mut vr = attestation();
    vr.cluster = "Localnet".to_string();
    assert_eq!(check_domain(&vr, &config()), Err(ErrorCode::InvalidCluster));
}

#[test]
fn first_failing_policy_check_wins() {
    let mut vr = attestation();
    vr.schema = "other".to_string();
    vr.expiration = NOW;
    let mut ctx = caller();
    ctx.is_signer = false;
    ctx.subject = [0u8; 32];
    assert_eq!(check_policy(&vr, &ctx, &config()), Err(ErrorCode::SubjectMismatch));
    ctx.subject = subject();
    assert_eq!(check_policy(&vr, &ctx, &config()), Err(ErrorCode::SubjectIsNotSigner));
    ctx.is_signer = true;
    assert_eq!(check_policy(&vr, &ctx, &config()), Err(ErrorCode::Expired));
    vr.expiration = NOW + 1;
    assert_eq!(check_policy(&vr, &ctx, &config()), Err(ErrorCode::InvalidSchema));
    vr.schema = "centre.io/credentials/kyc".to_string();
    assert_eq!(check_policy(&vr, &ctx, &config()), Ok(()));
}

#[test]
fn signer_check_compares_with_anchor() {
    let anchor = [4u8; 64];
    assert_eq!(check_signer(Some([4u8; 64]), &anchor), Ok(()));
    let mut other = anchor;
    other[63] = 5;
    assert_eq!(check_signer(Some(other), &anchor), Err(ErrorCode::UntrustedSigner));
    assert_eq!(check_signer(None, &anchor), Err(ErrorCode::SignatureRecoveryFailed));
}

#[test]
fn config_for_context() {
    let c = DomainConfig::new("mainnet-beta");
    assert_eq!(c.name, "VerificationRegistry");
    assert_eq!(c.version, "1.0");
    assert_eq!(c.cluster, "mainnet-beta");
    assert_eq!(c.schema, "centre.io/credentials/kyc");
}

#[test]
fn byte_comparison() {
    assert!(bytes_equal(&[1, 2, 3], &[1, 2, 3]));
    assert!(!bytes_equal(&[1, 2, 3], &[1, 2, 4]));
    assert!(!bytes_equal(&[1, 2], &[1, 2, 3]));
    assert!(bytes_equal(&[], &[]));
}
