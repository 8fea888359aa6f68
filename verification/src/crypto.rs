//! The two cryptographic primitives the library leans on: SHA-256 for
//! address derivation and ed25519 for authorization. Both are pure
//! functions of their byte inputs; their results are named here and the
//! outside implementations are called behind trusted wrappers.

use vstd::prelude::*;

verus! {

/// The SHA-256 digest of a byte sequence. The digest is a function of the
/// input bytes alone; what it is on given bytes is not stated.
pub uninterp spec fn sha256_of(input: Seq<u8>) -> Seq<u8>;

/// Whether `signature` is a valid ed25519 signature of `message` under
/// `public_key`, by strict verification: a key that does not decode to a
/// curve point, a malformed signature, or a small-order component makes
/// the triple invalid. A function of the three byte sequences alone.
pub uninterp spec fn ed25519_valid(public_key: Seq<u8>, message: Seq<u8>, signature: Seq<u8>) -> bool;

/// Relies on sha2::Sha256 through the Digest trait: the digest is 32 bytes
/// and depends on the input bytes alone.
#[verifier::external_body]
pub(crate) fn sha256(input: &Vec<u8>) -> (digest: Vec<u8>)
    ensures
        digest@ == sha256_of(input@),
        digest@.len() == 32,
{
    let mut hasher = <sha2::Sha256 as sha2::Digest>::new();
    sha2::Digest::update(&mut hasher, input.as_slice());
    sha2::Digest::finalize(hasher).to_vec()
}

/// Relies on ed25519_dalek::VerifyingKey::from_bytes and
/// VerifyingKey::verify_strict: the verdict depends on the key, message
/// and signature bytes alone; a key that does not decode is rejected.
#[verifier::external_body]
pub(crate) fn ed25519_verify(public_key: &Vec<u8>, message: &Vec<u8>, signature: &Vec<u8>) -> (valid: bool)
    requires
        public_key@.len() == 32,
        signature@.len() == 64,
    ensures
        valid == ed25519_valid(public_key@, message@, signature@),
{
    let pk_bytes: [u8; 32] = match public_key.as_slice().try_into() {
        Ok(b) => b,
        Err(_) => return false,
    };
    let sig_bytes: [u8; 64] = match signature.as_slice().try_into() {
        Ok(b) => b,
        Err(_) => return false,
    };
    let key = match ed25519_dalek::VerifyingKey::from_bytes(&pk_bytes) {
        Ok(k) => k,
        Err(_) => return false,
    };
    let sig = ed25519_dalek::Signature::from_bytes(&sig_bytes);
    key.verify_strict(message.as_slice(), &sig).is_ok()
}

} // verus!
