//! Signature primitives of the authentication protocol, called through the
//! sha2, ed25519-dalek and p256 crates.
//!
//! Each result is a pure function of the bytes handed in, named here by an
//! uninterpreted spec function; the protocol logic is verified against
//! those names, and the tests exercise the real primitives end to end.

use vstd::prelude::*;

verus! {

/// The SHA-256 digest (32 bytes) of a byte sequence.
pub uninterp spec fn sha256_of(bytes: Seq<u8>) -> Seq<u8>;

/// Whether `sig` is a valid Ed25519 signature by the public key `pk` over
/// `msg` (the protocol signs the 32-byte challenge digest directly).
pub uninterp spec fn ed25519_accepts(pk: Seq<u8>, msg: Seq<u8>, sig: Seq<u8>) -> bool;

/// Whether `sig` (a 64-byte `r ‖ s` pair) is a valid ECDSA/P-256 signature
/// over the already-hashed message `digest` by the public key `pk` (a
/// 33-byte SEC1 compressed point).
pub uninterp spec fn p256_accepts(digest: Seq<u8>, sig: Seq<u8>, pk: Seq<u8>) -> bool;

/// Relies on sha2::Sha256 (through the Digest trait): the SHA-256 digest is
/// a pure function of the input bytes and is 32 bytes long.
#[verifier::external_body]
pub fn sha256(bytes: &Vec<u8>) -> (r: [u8; 32])
    ensures
        r@ == sha256_of(bytes@),
{
    let digest = <sha2::Sha256 as sha2::Digest>::digest(bytes.as_slice());
    let mut out = [0u8; 32];
    out.copy_from_slice(digest.as_slice());
    out
}

/// Relies on ed25519_dalek::VerifyingKey::{from_bytes, verify} and
/// ed25519_dalek::Signature::from_bytes: whether the signature verifies is
/// a function of the key, message and signature bytes alone.  Key bytes
/// that decode to no valid point verify nothing.
#[verifier::external_body]
pub fn ed25519_verify(pk: &[u8; 32], msg: &[u8; 32], sig: &[u8; 64]) -> (r: bool)
    ensures
        r == ed25519_accepts(pk@, msg@, sig@),
{
    match ed25519_dalek::VerifyingKey::from_bytes(pk) {
        Ok(vk) => {
            let signature = ed25519_dalek::Signature::from_bytes(sig);
            ed25519_dalek::Verifier::verify(&vk, msg.as_slice(), &signature).is_ok()
        },
        Err(_) => false,
    }
}

/// Relies on p256::ecdsa::VerifyingKey::from_sec1_bytes,
/// p256::ecdsa::Signature::from_slice and PrehashVerifier::verify_prehash:
/// whether the prehashed signature verifies is a function of the digest,
/// signature and key bytes alone.  A key or signature that does not parse
/// verifies nothing.
#[verifier::external_body]
pub fn verify_secp256r1_sha256(hash: &[u8; 32], sig: &[u8], pk: &[u8; 33]) -> (r: bool)
    ensures
        r == p256_accepts(hash@, sig@, pk@),
{
    let verifying_key = match p256::ecdsa::VerifyingKey::from_sec1_bytes(pk) {
        Ok(vk) => vk,
        Err(_) => return false,
    };
    let signature = match p256::ecdsa::Signature::from_slice(sig) {
        Ok(s) => s,
        Err(_) => return false,
    };
    p256::ecdsa::signature::hazmat::PrehashVerifier::verify_prehash(
        &verifying_key,
        hash,
        &signature,
    ).is_ok()
}

} // verus!
