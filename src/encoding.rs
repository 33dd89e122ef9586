use vstd::prelude::*;
use vstd::seq_lib::lemma_concat_associative;
use vstd::utf8::encode_utf8;

use crate::types::VerificationResult;

verus! {

/// The four little-endian bytes of `n`.
pub open spec fn u32_le(n: u32) -> Seq<u8> {
    seq![
        (n % 0x100) as u8,
        (n / 0x100 % 0x100) as u8,
        (n / 0x1_0000 % 0x100) as u8,
        (n / 0x100_0000 % 0x100) as u8,
    ]
}

/// The eight little-endian bytes of `n`.
pub open spec fn u64_le(n: u64) -> Seq<u8> {
    u32_le((n % 0x1_0000_0000) as u32) + u32_le((n / 0x1_0000_0000) as u32)
}

/// The bytes of a string field: its UTF-8 byte length as a little-endian
/// `u32`, then its UTF-8 bytes.
pub open spec fn field_bytes(s: Seq<char>) -> Seq<u8> {
    u32_le(encode_utf8(s).len() as u32) + encode_utf8(s)
}

/// The canonical encoding that the issuer signs: the fields in declaration
/// order, strings length-prefixed, the subject as its 32 raw bytes and the
/// expiration as a little-endian two's-complement `i64`.
pub open spec fn encoding(vr: VerificationResult) -> Seq<u8> {
    field_bytes(vr.name@) + (field_bytes(vr.version@) + (field_bytes(vr.cluster@) + (vr.subject@
        + (u64_le(vr.expiration as u64) + field_bytes(vr.schema@)))))
}

fn push_u32_le(out: &mut Vec<u8>, n: u32)
    ensures
        final(out)@ == old(out)@ + u32_le(n),
{
    out.push((n % 0x100) as u8);
    out.push((n / 0x100 % 0x100) as u8);
    out.push((n / 0x1_0000 % 0x100) as u8);
    out.push((n / 0x100_0000 % 0x100) as u8);
    assert(final(out)@ =~= old(out)@ + u32_le(n));
}

fn push_bytes(out: &mut Vec<u8>, bytes: &[u8])
    ensures
        final(out)@ == old(out)@ + bytes@,
{
    let ghost start = out@;
    let mut i: usize = 0;
    while i < bytes.len()
        invariant
            i <= bytes@.len(),
            out@ == start + bytes@.subrange(0, i as int),
        decreases bytes@.len() - i,
    {
        out.push(bytes[i]);
        i = i + 1;
        assert(out@ =~= start + bytes@.subrange(0, i as int));
    }
    assert(bytes@.subrange(0, i as int) =~= bytes@);
}

fn push_field(out: &mut Vec<u8>, s: &String)
    requires
        encode_utf8(s@).len() <= u32::MAX,
    ensures
        final(out)@ == old(out)@ + field_bytes(s@),
{
    let bytes = s.as_str().as_bytes();
    push_u32_le(out, bytes.len() as u32);
    push_bytes(out, bytes);
    assert(final(out)@ =~= old(out)@ + field_bytes(s@));
}

fn push_u64_le(out: &mut Vec<u8>, n: u64)
    ensures
        final(out)@ == old(out)@ + u64_le(n),
{
    let ghost start = out@;
    push_u32_le(out, (n % 0x1_0000_0000) as u32);
    push_u32_le(out, (n / 0x1_0000_0000) as u32);
    proof {
        lemma_concat_associative(
            start,
            u32_le((n % 0x1_0000_0000) as u32),
            u32_le((n / 0x1_0000_0000) as u32),
        );
    }
}

/// Encodes `vr` into the bytes that its signature covers.
pub fn encode(vr: &VerificationResult) -> (r: Vec<u8>)
    requires
        vr.wf(),
    ensures
        r@ == encoding(*vr),
{
    let mut out: Vec<u8> = Vec::new();
    push_field(&mut out, &vr.name);
    assert(out@ =~= field_bytes(vr.name@));
    push_field(&mut out, &vr.version);
    push_field(&mut out, &vr.cluster);
    push_bytes(&mut out, vr.subject.as_slice());
    push_u64_le(&mut out, vr.expiration as u64);
    push_field(&mut out, &vr.schema);
    proof {
        let (n, v, c) = (field_bytes(vr.name@), field_bytes(vr.version@), field_bytes(vr.cluster@));
        let (s, e, k) = (vr.subject@, u64_le(vr.expiration as u64), field_bytes(vr.schema@));
        lemma_concat_associative(n, v, c + (s + (e + k)));
        lemma_concat_associative(n + v, c, s + (e + k));
        lemma_concat_associative(n + v + c, s, e + k);
        lemma_concat_associative(n + v + c + s, e, k);
    }
    out
}

} // verus!
