use vstd::prelude::*;
use crate::crypto::{self, Address, KeyPair};
use crate::dalek_ops::{dalek_sign, dalek_verify, dalek_verifying_key, ed25519_public_key, ed25519_sign, ed25519_verify};
use crate::digest::{sha256, sha256_digest};

verus! {

/// An Ed25519 secret key: its 32-byte seed.
pub struct SecretKey([u8; 32]);

/// An Ed25519 public key: its 32 compressed bytes.
pub struct PublicKey([u8; 32]);

/// The SHA-256 digest of a public key's bytes.
pub struct PublicKeyHash(pub [u8; 32]);

/// An Ed25519 signature: its 64 bytes.
pub struct Signature([u8; 64]);

/// The Ed25519 scheme of `ed25519-dalek`.
pub struct Ed25519;

impl View for SecretKey {
    type V = Seq<u8>;

    closed spec fn view(&self) -> Seq<u8> {
        self.0@
    }
}

impl View for PublicKey {
    type V = Seq<u8>;

    closed spec fn view(&self) -> Seq<u8> {
        self.0@
    }
}

impl View for Signature {
    type V = Seq<u8>;

    closed spec fn view(&self) -> Seq<u8> {
        self.0@
    }
}

impl PublicKey {
    /// The public key with the bytes `bytes`.
    pub closed spec fn of_bytes(bytes: [u8; 32]) -> PublicKey {
        PublicKey(bytes)
    }
}

impl Signature {
    /// The signature with the bytes `bytes`.
    pub closed spec fn of_bytes(bytes: [u8; 64]) -> Signature {
        Signature(bytes)
    }
}

/// The bytes of keys and signatures: their lengths, and the values built of bytes.
pub broadcast proof fn lemma_ed25519_bytes(k: SecretKey, p: PublicKey, s: Signature, a: [u8; 32], b: [u8; 64])
    ensures
        #[trigger] k@.len() == 32,
        #[trigger] p@.len() == 32,
        #[trigger] s@.len() == 64,
        #[trigger] PublicKey::of_bytes(a)@ == a@,
        #[trigger] Signature::of_bytes(b)@ == b@,
{
}

/// `signature` is the signature that `Ed25519` makes of `message` with `secret_key`.
pub open spec fn is_signature_of(secret_key: SecretKey, message: Seq<u8>, signature: Signature) -> bool {
    signature@ == ed25519_sign(secret_key@, message)@
}

/// `signature` of `message` was made with a secret key whose public key is `public_key`.
pub open spec fn made_by(public_key: PublicKey, message: Seq<u8>, signature: Signature) -> bool {
    exists|k: SecretKey|
        public_key@ == ed25519_public_key(k@)@ && #[trigger] is_signature_of(k, message, signature)
}

impl KeyPair for Ed25519 {
    type SecretKey = SecretKey;
    type PublicKey = PublicKey;

    open spec fn public_key_of(secret_key: SecretKey) -> PublicKey {
        PublicKey::of_bytes(ed25519_public_key(secret_key@))
    }

    fn to_public_key(secret_key: &SecretKey) -> (public_key: PublicKey)
        ensures
            public_key@ == ed25519_public_key(secret_key@)@,
    {
        PublicKey(dalek_verifying_key(&secret_key.0))
    }
}

impl Address for Ed25519 {
    type PublicKeyHash = PublicKeyHash;

    open spec fn address_of(public_key: PublicKey) -> PublicKeyHash {
        PublicKeyHash(sha256_digest(public_key@))
    }

    fn address(public_key: &PublicKey) -> (hash: PublicKeyHash)
        ensures
            hash.0 == sha256_digest(public_key@),
    {
        PublicKeyHash(sha256(&public_key.0))
    }

    fn to_public_key_hash(secret_key: &SecretKey) -> (hash: PublicKeyHash)
        ensures
            hash.0 == sha256_digest(ed25519_public_key(secret_key@)@),
    {
        let public_key = Self::to_public_key(secret_key);
        Self::address(&public_key)
    }
}

impl crypto::Signer for Ed25519 {
    type Signature = Signature;
    type Error = core::convert::Infallible;

    open spec fn signing_result(secret_key: SecretKey, message: Seq<u8>) -> Result<Signature, core::convert::Infallible> {
        Ok(Signature::of_bytes(ed25519_sign(secret_key@, message)))
    }

    open spec fn signed_by(public_key: PublicKey, message: Seq<u8>, signature: Signature) -> bool {
        made_by(public_key, message, signature)
    }

    open spec fn verifying_result(
        public_key: PublicKey,
        message: Seq<u8>,
        signature: Signature,
    ) -> Result<bool, core::convert::Infallible> {
        Ok(ed25519_verify(public_key@, message, signature@))
    }

    fn sign(secret_key: &SecretKey, message: &[u8]) -> (r: Result<Signature, core::convert::Infallible>)
        ensures
            r matches Ok(s) && is_signature_of(*secret_key, message@, s),
            r matches Ok(s) && s@ == ed25519_sign(secret_key@, message@)@,
    {
        let signature = Signature(dalek_sign(&secret_key.0, message));
        proof {
            assert(is_signature_of(*secret_key, message@, signature));
            assert(Ed25519::public_key_of(*secret_key)@ == ed25519_public_key(secret_key@)@);
        }
        Ok(signature)
    }

    fn verify(
        public_key: &PublicKey,
        message: &[u8],
        signature: &Signature,
    ) -> (r: Result<bool, core::convert::Infallible>)
        ensures
            r == Ok::<bool, core::convert::Infallible>(ed25519_verify(public_key@, message@, signature@)),
    {
        let valid = dalek_verify(&public_key.0, message, &signature.0);
        proof {
            if made_by(*public_key, message@, *signature) {
                let k = choose|k: SecretKey|
                    public_key@ == ed25519_public_key(k@)@ && #[trigger] is_signature_of(k, message@, *signature);
                broadcast use vstd::array::axiom_array_ext_equal;
                assert(public_key.0@ == ed25519_public_key(k@)@);
                assert(public_key.0 == ed25519_public_key(k@));
                assert(signature.0 == ed25519_sign(k@, message@));
            }
        }
        Ok(valid)
    }
}


/// Verifying with `Ed25519` gives exactly `ed25519-dalek`'s answer on the bytes
/// of the public key, the message and the signature.
pub proof fn lemma_ed25519_verifying_result(public_key: PublicKey, message: Seq<u8>, signature: Signature)
    ensures
        <Ed25519 as crypto::Signer>::verifying_result(public_key, message, signature)
            == Ok::<bool, core::convert::Infallible>(ed25519_verify(public_key@, message, signature@)),
{
}

/// Signing with `Ed25519` gives `ed25519-dalek`'s signature of the message by
/// the secret seed.
pub proof fn lemma_ed25519_signing_result(secret_key: SecretKey, message: Seq<u8>)
    ensures
        <Ed25519 as crypto::Signer>::signing_result(secret_key, message) matches Ok(s)
            && s@ == ed25519_sign(secret_key@, message)@,
{
}

} // verus!
