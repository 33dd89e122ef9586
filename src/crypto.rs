use vstd::prelude::*;

use solana_program::secp256k1_recover::Secp256k1RecoverError;

verus! {

#[verifier::external_type_specification]
#[verifier::external_body]
pub struct ExSecp256k1RecoverError(Secp256k1RecoverError);

/// The Keccak-256 digest of `bytes`.
pub uninterp spec fn keccak256_of(bytes: Seq<u8>) -> Seq<u8>;

/// The uncompressed public key, without its tag byte, that secp256k1
/// recovery yields for `signature` over `hash` with `recovery_id`, or
/// `None` where no key can be recovered.
pub uninterp spec fn secp256k1_recovery(hash: Seq<u8>, recovery_id: u8, signature: Seq<u8>) -> Option<Seq<u8>>;

/// Relies on solana_program::keccak::hash: the 32-byte Keccak-256 digest
/// of the whole input.
#[verifier::external_body]
pub(crate) fn keccak256(bytes: &[u8]) -> (r: [u8; 32])
    ensures
        r@ == keccak256_of(bytes@),
{
    solana_program::keccak::hash(bytes).to_bytes()
}

/// Relies on solana_program::secp256k1_recover::secp256k1_recover: the
/// recovered key depends on its three arguments alone, and a recovery id
/// above 3 is refused.
#[verifier::external_body]
pub(crate) fn secp256k1_recover(hash: &[u8; 32], recovery_id: u8, signature: &[u8; 64]) -> (r: Result<[u8; 64], Secp256k1RecoverError>)
    ensures
        match r {
            Ok(key) => secp256k1_recovery(hash@, recovery_id, signature@) == Some(key@),
            Err(_) => secp256k1_recovery(hash@, recovery_id, signature@) is None,
        },
        recovery_id > 3 ==> r is Err,
{
    solana_program::secp256k1_recover::secp256k1_recover(hash, recovery_id, signature)
        .map(|key| key.0)
}

} // verus!
