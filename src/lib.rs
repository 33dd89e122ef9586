//! Verification of signed compliance attestations.
//!
//! An attestation asserts that a subject identity holds a credential. The
//! entry point [`verify::initialize`] checks its domain separator, binds it
//! to the caller that presents it, rejects it once expired, and finally
//! recovers the secp256k1 key that signed its canonical encoding and compares
//! that key with the configured trust anchor.

pub mod checks;
pub mod crypto;
pub mod encoding;
pub mod laws;
pub mod types;
pub mod verify;
