use vstd::prelude::*;
use vstd::utf8::{encode_utf8, encode_utf8_decode_utf8};

use crate::checks::{domain_outcome, policy_outcome};
use crate::encoding::{encoding, field_bytes, u32_le, u64_le};
use crate::types::{DomainConfig, ErrorCode, Initialize, VerificationResult};
use crate::verify::{attestation_signer, verification_outcome};

verus! {

/// An attestation is accepted exactly when it carries the configured name,
/// version, context and credential type, is presented by its subject who
/// signed the call before it expired, and its encoding was signed by the
/// trust anchor.
pub proof fn lemma_accepted_iff_valid(
    ctx: Initialize,
    signature: Seq<u8>,
    recovery_id: u8,
    vr: VerificationResult,
    trust_anchor: Seq<u8>,
    config: DomainConfig,
)
    ensures
        verification_outcome(ctx, signature, recovery_id, vr, trust_anchor, config) == Ok::<(), ErrorCode>(())
            <==> {
            &&& vr.name@ == config.name@
            &&& vr.version@ == config.version@
            &&& vr.cluster@ == config.cluster@
            &&& ctx.subject@ == vr.subject@
            &&& ctx.is_signer
            &&& ctx.unix_timestamp < vr.expiration
            &&& vr.schema@ == config.schema@
            &&& attestation_signer(signature, recovery_id, vr) == Some(trust_anchor)
        },
{
}

/// Changing one domain field of an attestation that passed the domain
/// checks yields that field's error, whatever the signature.
pub proof fn lemma_changed_domain_field_rejected(
    ctx: Initialize,
    signature: Seq<u8>,
    recovery_id: u8,
    original: VerificationResult,
    changed: VerificationResult,
    trust_anchor: Seq<u8>,
    config: DomainConfig,
)
    requires
        domain_outcome(original, config) is Ok,
    ensures
        changed.name@ != original.name@ ==> verification_outcome(
            ctx,
            signature,
            recovery_id,
            changed,
            trust_anchor,
            config,
        ) == Err::<(), ErrorCode>(ErrorCode::InvalidName),
        changed.name@ == original.name@ && changed.version@ != original.version@
            ==> verification_outcome(ctx, signature, recovery_id, changed, trust_anchor, config)
            == Err::<(), ErrorCode>(ErrorCode::InvalidVersion),
        changed.name@ == original.name@ && changed.version@ == original.version@
            && changed.cluster@ != original.cluster@ ==> verification_outcome(
            ctx,
            signature,
            recovery_id,
            changed,
            trust_anchor,
            config,
        ) == Err::<(), ErrorCode>(ErrorCode::InvalidCluster),
{
}

/// An attestation presented at its expiration instant has expired.
pub proof fn lemma_expires_at_boundary(
    ctx: Initialize,
    signature: Seq<u8>,
    recovery_id: u8,
    vr: VerificationResult,
    trust_anchor: Seq<u8>,
    config: DomainConfig,
)
    requires
        domain_outcome(vr, config) is Ok,
        ctx.subject@ == vr.subject@,
        ctx.is_signer,
        ctx.unix_timestamp == vr.expiration,
    ensures
        verification_outcome(ctx, signature, recovery_id, vr, trust_anchor, config)
            == Err::<(), ErrorCode>(ErrorCode::Expired),
{
}

/// A presenter other than the subject is refused, whatever the signature.
pub proof fn lemma_other_presenter_rejected(
    ctx: Initialize,
    signature: Seq<u8>,
    recovery_id: u8,
    vr: VerificationResult,
    trust_anchor: Seq<u8>,
    config: DomainConfig,
)
    requires
        domain_outcome(vr, config) is Ok,
        ctx.subject@ != vr.subject@,
    ensures
        verification_outcome(ctx, signature, recovery_id, vr, trust_anchor, config)
            == Err::<(), ErrorCode>(ErrorCode::SubjectMismatch),
{
}

/// An otherwise valid attestation whose encoding was signed by a key other
/// than the trust anchor is refused as untrusted.
pub proof fn lemma_other_signer_untrusted(
    ctx: Initialize,
    signature: Seq<u8>,
    recovery_id: u8,
    vr: VerificationResult,
    trust_anchor: Seq<u8>,
    config: DomainConfig,
    signer: Seq<u8>,
)
    requires
        domain_outcome(vr, config) is Ok,
        policy_outcome(vr, ctx, config) is Ok,
        attestation_signer(signature, recovery_id, vr) == Some(signer),
        signer != trust_anchor,
    ensures
        verification_outcome(ctx, signature, recovery_id, vr, trust_anchor, config)
            == Err::<(), ErrorCode>(ErrorCode::UntrustedSigner),
{
}

/// A recovery id outside 0..=3 makes recovery fail for an otherwise valid
/// attestation.
pub proof fn lemma_bad_recovery_id_fails(
    ctx: Initialize,
    signature: Seq<u8>,
    recovery_id: u8,
    vr: VerificationResult,
    trust_anchor: Seq<u8>,
    config: DomainConfig,
)
    requires
        domain_outcome(vr, config) is Ok,
        policy_outcome(vr, ctx, config) is Ok,
        recovery_id > 3,
    ensures
        verification_outcome(ctx, signature, recovery_id, vr, trust_anchor, config)
            == Err::<(), ErrorCode>(ErrorCode::SignatureRecoveryFailed),
{
}

proof fn lemma_u32_le_injective(x: u32, y: u32)
    requires
        u32_le(x) == u32_le(y),
    ensures
        x == y,
{
    assert(u32_le(x)[0] == u32_le(y)[0]);
    assert(u32_le(x)[1] == u32_le(y)[1]);
    assert(u32_le(x)[2] == u32_le(y)[2]);
    assert(u32_le(x)[3] == u32_le(y)[3]);
    let (x0, x1, x2, x3) = (x % 0x100, x / 0x100 % 0x100, x / 0x1_0000 % 0x100, x / 0x100_0000 % 0x100);
    let (y0, y1, y2, y3) = (y % 0x100, y / 0x100 % 0x100, y / 0x1_0000 % 0x100, y / 0x100_0000 % 0x100);
    assert(x0 == y0 && x1 == y1 && x2 == y2 && x3 == y3);
    assert(x % 0x100 == y % 0x100 && x / 0x100 % 0x100 == y / 0x100 % 0x100 && x / 0x1_0000 % 0x100
        == y / 0x1_0000 % 0x100 && x / 0x100_0000 % 0x100 == y / 0x100_0000 % 0x100 ==> x == y)
        by (bit_vector);
}

proof fn lemma_u64_le_injective(x: u64, y: u64)
    requires
        u64_le(x) == u64_le(y),
    ensures
        x == y,
{
    let (xl, xh) = ((x % 0x1_0000_0000) as u32, (x / 0x1_0000_0000) as u32);
    let (yl, yh) = ((y % 0x1_0000_0000) as u32, (y / 0x1_0000_0000) as u32);
    assert(u32_le(xl) =~= u64_le(x).subrange(0, 4));
    assert(u32_le(yl) =~= u64_le(y).subrange(0, 4));
    assert(u32_le(xh) =~= u64_le(x).subrange(4, 8));
    assert(u32_le(yh) =~= u64_le(y).subrange(4, 8));
    lemma_u32_le_injective(xl, yl);
    lemma_u32_le_injective(xh, yh);
}

proof fn lemma_i64_bits_injective(x: i64, y: i64)
    requires
        x as u64 == y as u64,
    ensures
        x == y,
{
    assert(x as u64 == y as u64 ==> x == y) by (bit_vector);
}

/// A string field is read back from the front of the bytes that follow it.
proof fn lemma_field_prefix(s: Seq<char>, t: Seq<char>, rest_s: Seq<u8>, rest_t: Seq<u8>)
    requires
        encode_utf8(s).len() <= u32::MAX,
        encode_utf8(t).len() <= u32::MAX,
        field_bytes(s) + rest_s == field_bytes(t) + rest_t,
    ensures
        s == t,
        rest_s == rest_t,
{
    let (bs, bt) = (encode_utf8(s), encode_utf8(t));
    let (all_s, all_t) = (field_bytes(s) + rest_s, field_bytes(t) + rest_t);
    assert(u32_le(bs.len() as u32) =~= all_s.subrange(0, 4));
    assert(u32_le(bt.len() as u32) =~= all_t.subrange(0, 4));
    lemma_u32_le_injective(bs.len() as u32, bt.len() as u32);
    let n = bs.len() as int;
    assert(bs =~= all_s.subrange(4, 4 + n));
    assert(bt =~= all_t.subrange(4, 4 + n));
    encode_utf8_decode_utf8(s);
    encode_utf8_decode_utf8(t);
    assert(rest_s =~= all_s.subrange(4 + n, all_s.len() as int));
    assert(rest_t =~= all_t.subrange(4 + n, all_t.len() as int));
}

/// Two concatenations whose first parts have one length agree part by part.
proof fn lemma_split_equal(x1: Seq<u8>, y1: Seq<u8>, x2: Seq<u8>, y2: Seq<u8>)
    requires
        x1 + y1 == x2 + y2,
        x1.len() == x2.len(),
    ensures
        x1 == x2,
        y1 == y2,
{
    assert(x1 =~= (x1 + y1).subrange(0, x1.len() as int));
    assert(x2 =~= (x2 + y2).subrange(0, x1.len() as int));
    assert(y1 =~= (x1 + y1).subrange(x1.len() as int, (x1 + y1).len() as int));
    assert(y2 =~= (x2 + y2).subrange(x1.len() as int, (x2 + y2).len() as int));
}

/// Distinct attestations have distinct encodings: the bytes that a signature
/// covers determine every field, so a change to any field changes them.
pub proof fn lemma_encoding_injective(a: VerificationResult, b: VerificationResult)
    requires
        a.wf(),
        b.wf(),
        encoding(a) == encoding(b),
    ensures
        a.name@ == b.name@,
        a.version@ == b.version@,
        a.cluster@ == b.cluster@,
        a.subject@ == b.subject@,
        a.expiration == b.expiration,
        a.schema@ == b.schema@,
{
    let (ea, eb) = (u64_le(a.expiration as u64), u64_le(b.expiration as u64));
    let (sa, sb) = (field_bytes(a.schema@), field_bytes(b.schema@));
    let tail_a3 = a.subject@ + (ea + sa);
    let tail_b3 = b.subject@ + (eb + sb);
    let tail_a2 = field_bytes(a.cluster@) + tail_a3;
    let tail_b2 = field_bytes(b.cluster@) + tail_b3;
    let tail_a = field_bytes(a.version@) + tail_a2;
    let tail_b = field_bytes(b.version@) + tail_b2;
    lemma_field_prefix(a.name@, b.name@, tail_a, tail_b);
    lemma_field_prefix(a.version@, b.version@, tail_a2, tail_b2);
    lemma_field_prefix(a.cluster@, b.cluster@, tail_a3, tail_b3);
    lemma_split_equal(a.subject@, ea + sa, b.subject@, eb + sb);
    lemma_split_equal(ea, sa, eb, sb);
    lemma_u64_le_injective(a.expiration as u64, b.expiration as u64);
    lemma_i64_bits_injective(a.expiration, b.expiration);
    lemma_field_prefix(a.schema@, b.schema@, Seq::empty(), Seq::empty());
}

} // verus!
