use vstd::prelude::*;
use ed25519_dalek::{Signer, Verifier};

verus! {

/// `ed25519-dalek` public key of a 32-byte secret seed
/// (`SigningKey::verifying_key`), as its 32 compressed bytes.
pub uninterp spec fn ed25519_public_key(seed: Seq<u8>) -> [u8; 32];

/// `ed25519-dalek` signature of `msg` by the secret seed (`Signer::sign`),
/// as its 64 bytes.
pub uninterp spec fn ed25519_sign(seed: Seq<u8>, msg: Seq<u8>) -> [u8; 64];

/// Whether `ed25519-dalek` accepts `signature` of `msg` under `public_key`
/// (`Verifier::verify` succeeds on the decoded key and signature).
pub uninterp spec fn ed25519_verify(public_key: Seq<u8>, msg: Seq<u8>, signature: Seq<u8>) -> bool;

/// Calls `SigningKey::verifying_key` on the key made of `seed`
/// (`SigningKey::from_bytes`) and serializes it (`VerifyingKey::to_bytes`).
#[verifier::external_body]
pub(crate) fn dalek_verifying_key(seed: &[u8; 32]) -> (public_key: [u8; 32])
    ensures
        public_key == ed25519_public_key(seed@),
{
    ed25519_dalek::SigningKey::from_bytes(seed).verifying_key().to_bytes()
}

/// Calls `Signer::sign` with the key made of `seed` (`SigningKey::from_bytes`)
/// and serializes the signature (`Signature::to_bytes`).
#[verifier::external_body]
pub(crate) fn dalek_sign(seed: &[u8; 32], msg: &[u8]) -> (signature: [u8; 64])
    ensures
        signature == ed25519_sign(seed@, msg@),
{
    ed25519_dalek::SigningKey::from_bytes(seed).sign(msg).to_bytes()
}

/// Calls `Verifier::verify` with the key decoded from `public_key`
/// (`VerifyingKey::from_bytes`) and the signature made of `signature`
/// (`Signature::from_bytes`); true when it returns `Ok`, false when it, or the
/// decoding of the key, returns an error. As the crate's documentation shows,
/// a signature that a signing key made of `msg` verifies under that key's
/// verifying key, also after both are serialized and read back.
#[verifier::external_body]
pub(crate) fn dalek_verify(public_key: &[u8; 32], msg: &[u8], signature: &[u8; 64]) -> (valid: bool)
    ensures
        valid == ed25519_verify(public_key@, msg@, signature@),
        forall|seed: Seq<u8>|
            #![trigger ed25519_sign(seed, msg@)]
            seed.len() == 32 && *public_key == ed25519_public_key(seed) && *signature == ed25519_sign(seed, msg@)
                ==> valid,
{
    match ed25519_dalek::VerifyingKey::from_bytes(public_key) {
        Ok(key) => key.verify(msg, &ed25519_dalek::Signature::from_bytes(signature)).is_ok(),
        Err(_) => false,
    }
}

} // verus!
