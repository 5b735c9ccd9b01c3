use vstd::prelude::*;
use crate::encode::{Encodable, Encoder};

verus! {

/// A signature scheme's pair of keys: the secret key determines the public key.
pub trait KeyPair {
    type SecretKey;
    type PublicKey;

    /// The public key that belongs to `secret_key`.
    spec fn public_key_of(secret_key: Self::SecretKey) -> Self::PublicKey;

    fn to_public_key(secret_key: &Self::SecretKey) -> (public_key: Self::PublicKey)
        ensures
            public_key == Self::public_key_of(*secret_key),
    ;
}

/// A scheme whose public keys have an address (a digest of the public key).
pub trait Address: KeyPair {
    type PublicKeyHash;

    /// The address of `public_key`.
    spec fn address_of(public_key: Self::PublicKey) -> Self::PublicKeyHash;

    fn address(public_key: &Self::PublicKey) -> (hash: Self::PublicKeyHash)
        ensures
            hash == Self::address_of(*public_key),
    ;

    /// The address of a secret key is the address of its public key.
    fn to_public_key_hash(secret_key: &Self::SecretKey) -> (hash: Self::PublicKeyHash)
        ensures
            hash == Self::address_of(Self::public_key_of(*secret_key)),
    {
        let public_key = Self::to_public_key(secret_key);
        Self::address(&public_key)
    }
}

/// A signature scheme: signing with a secret key, verifying with a public key.
pub trait Signer: KeyPair {
    type Signature;
    type Error;

    /// What signing `message` with `secret_key` gives.
    spec fn signing_result(secret_key: Self::SecretKey, message: Seq<u8>) -> Result<Self::Signature, Self::Error>;

    /// `signature` of `message` was made with a secret key whose public key is
    /// `public_key`.
    spec fn signed_by(public_key: Self::PublicKey, message: Seq<u8>, signature: Self::Signature) -> bool;

    /// What verifying `signature` of `message` under `public_key` gives.
    spec fn verifying_result(
        public_key: Self::PublicKey,
        message: Seq<u8>,
        signature: Self::Signature,
    ) -> Result<bool, Self::Error>;

    fn sign(secret_key: &Self::SecretKey, message: &[u8]) -> (r: Result<Self::Signature, Self::Error>)
        ensures
            r == Self::signing_result(*secret_key, message@),
            r matches Ok(s) ==> Self::signed_by(Self::public_key_of(*secret_key), message@, s),
    ;

    fn verify(
        public_key: &Self::PublicKey,
        message: &[u8],
        signature: &Self::Signature,
    ) -> (r: Result<bool, Self::Error>)
        ensures
            r == Self::verifying_result(*public_key, message@, *signature),
            Self::signed_by(*public_key, message@, *signature) ==> r == Ok::<bool, Self::Error>(true),
    ;
}

/// Signing and verifying through a caller's buffer in place of an allocation.
/// Where the buffer is large enough, the result is that of `sign` / `verify`.
pub trait SignerBuf: Signer {
    /// Whether a buffer of `buf_len` bytes is large enough for a message of
    /// `message_len` bytes.
    spec fn fits_in_buffer(message_len: nat, buf_len: nat) -> bool;

    fn sign_no_alloc(
        secret_key: &Self::SecretKey,
        message: &[u8],
        buf: &mut [u8],
    ) -> (r: Result<Self::Signature, Self::Error>)
        requires
            message@.len() <= isize::MAX,
        ensures
            Self::fits_in_buffer(message@.len(), old(buf)@.len()) ==> r == Self::signing_result(
                *secret_key,
                message@,
            ),
            !Self::fits_in_buffer(message@.len(), old(buf)@.len()) ==> r is Err,
            r matches Ok(s) ==> Self::signed_by(Self::public_key_of(*secret_key), message@, s),
            final(buf)@.len() == old(buf)@.len(),
    ;

    fn verify_no_alloc(
        public_key: &Self::PublicKey,
        message: &[u8],
        signature: &Self::Signature,
        buf: &mut [u8],
    ) -> (r: Result<bool, Self::Error>)
        requires
            message@.len() <= isize::MAX,
        ensures
            Self::fits_in_buffer(message@.len(), old(buf)@.len()) ==> r == Self::verifying_result(
                *public_key,
                message@,
                *signature,
            ),
            Self::fits_in_buffer(message@.len(), old(buf)@.len()) && Self::signed_by(
                *public_key,
                message@,
                *signature,
            ) ==> r == Ok::<bool, Self::Error>(true),
            !Self::fits_in_buffer(message@.len(), old(buf)@.len()) ==> r is Err,
            final(buf)@.len() == old(buf)@.len(),
    ;
}

/// A signature scheme whose signatures combine into one aggregate signature.
pub trait AggregateSigner: Signer {
    type AggregateSignature;

    /// What aggregating `signatures` gives.
    spec fn aggregation_result(signatures: Seq<Self::Signature>) -> Result<Self::AggregateSignature, Self::Error>;

    /// Whether `aggregate_signature` verifies for the pairs of message and public key.
    spec fn aggregate_verification(
        messages_with_pks: Seq<(Seq<u8>, Self::PublicKey)>,
        aggregate_signature: Self::AggregateSignature,
    ) -> bool;

    fn aggregate_signatures(signatures: &[Self::Signature]) -> (r: Result<Self::AggregateSignature, Self::Error>)
        ensures
            r == Self::aggregation_result(signatures@),
    ;

    fn verify_aggregate_signature(
        messages_with_pks: &[(&[u8], &Self::PublicKey)],
        aggregate_signature: &Self::AggregateSignature,
    ) -> (valid: bool)
        ensures
            valid == Self::aggregate_verification(
                messages_with_pks@.map_values(|p: (&[u8], &Self::PublicKey)| (p.0@, *p.1)),
                *aggregate_signature,
            ),
    ;
}

/// A value that can be signed through its encoding.
pub trait Signable {}

/// Whether `encode` of `value` under `E` may return `bytes`.
pub open spec fn encodes_to<T: Encodable<E> + ?Sized, E: Encoder>(value: &T, bytes: Vec<u8>) -> bool {
    call_ensures(<T as Encodable<E>>::encode, (value,), bytes)
}

/// Whether every encoding that `encode` of `value` under `E` may return fits
/// in a slice (at most `isize::MAX` bytes).
pub open spec fn encodings_fit<T: Encodable<E> + ?Sized, E: Encoder>(value: &T) -> bool {
    forall|bytes: Vec<u8>| #[trigger] encodes_to::<T, E>(value, bytes) ==> bytes@.len() <= isize::MAX
}

/// Whether `encode` of `value` under `E` returns the same bytes whenever it
/// is called.
pub open spec fn encodes_uniquely<T: Encodable<E> + ?Sized, E: Encoder>(value: &T) -> bool {
    forall|b1: Vec<u8>, b2: Vec<u8>|
        #[trigger] encodes_to::<T, E>(value, b1) && #[trigger] encodes_to::<T, E>(value, b2) ==> b1@ == b2@
}

/// Whether some encoding of `value` under `E` is signed by `signature` under
/// `public_key` in the scheme `C`.
pub open spec fn encoding_signed_by<T: Encodable<E> + ?Sized, E: Encoder, C: Signer>(
    value: &T,
    public_key: C::PublicKey,
    signature: C::Signature,
) -> bool {
    exists|bytes: Vec<u8>|
        #[trigger] encodes_to::<T, E>(value, bytes) && C::signed_by(public_key, bytes@, signature)
}

/// Signing and verifying a value through its encoding under `E` with the scheme `C`:
/// each call is that of `C` on the bytes that `encode` returned. Where `encode`
/// always returns the same bytes, each call is that of `C` on every encoding of
/// the value, and what `sign` made verifies under the signer's public key.
pub trait SignableExt: Signable {
    fn sign_no_alloc<C: SignerBuf, E: Encoder>(
        &self,
        secret_key: &C::SecretKey,
        buf: &mut [u8],
    ) -> (r: Result<C::Signature, C::Error>) where Self: Encodable<E>
        requires
            encodings_fit::<Self, E>(self),
        ensures
            exists|bytes: Vec<u8>|
                {
                    &&& #[trigger] encodes_to::<Self, E>(self, bytes)
                    &&& C::fits_in_buffer(bytes@.len(), old(buf)@.len()) ==> r == C::signing_result(
                        *secret_key,
                        bytes@,
                    )
                    &&& !C::fits_in_buffer(bytes@.len(), old(buf)@.len()) ==> r is Err
                },
            encodes_uniquely::<Self, E>(self) ==> forall|bytes: Vec<u8>| #[trigger]
                encodes_to::<Self, E>(self, bytes) ==> {
                    &&& C::fits_in_buffer(bytes@.len(), old(buf)@.len()) ==> r == C::signing_result(
                        *secret_key,
                        bytes@,
                    )
                    &&& !C::fits_in_buffer(bytes@.len(), old(buf)@.len()) ==> r is Err
                },
            r matches Ok(s) ==> encoding_signed_by::<Self, E, C>(self, C::public_key_of(*secret_key), s),
            final(buf)@.len() == old(buf)@.len(),
    ;

    fn verify_no_alloc<C: SignerBuf, E: Encoder>(
        &self,
        public_key: &C::PublicKey,
        signature: &C::Signature,
        buf: &mut [u8],
    ) -> (r: Result<bool, C::Error>) where Self: Encodable<E>
        requires
            encodings_fit::<Self, E>(self),
        ensures
            exists|bytes: Vec<u8>|
                {
                    &&& #[trigger] encodes_to::<Self, E>(self, bytes)
                    &&& C::fits_in_buffer(bytes@.len(), old(buf)@.len()) ==> r == C::verifying_result(
                        *public_key,
                        bytes@,
                        *signature,
                    )
                    &&& !C::fits_in_buffer(bytes@.len(), old(buf)@.len()) ==> r is Err
                    &&& C::fits_in_buffer(bytes@.len(), old(buf)@.len()) && encodes_uniquely::<Self, E>(self)
                        && encoding_signed_by::<Self, E, C>(self, *public_key, *signature) ==> r == Ok::<
                        bool,
                        C::Error,
                    >(true)
                },
            encodes_uniquely::<Self, E>(self) ==> forall|bytes: Vec<u8>| #[trigger]
                encodes_to::<Self, E>(self, bytes) ==> {
                    &&& C::fits_in_buffer(bytes@.len(), old(buf)@.len()) ==> r == C::verifying_result(
                        *public_key,
                        bytes@,
                        *signature,
                    )
                    &&& !C::fits_in_buffer(bytes@.len(), old(buf)@.len()) ==> r is Err
                },
            final(buf)@.len() == old(buf)@.len(),
    ;

    fn sign<C: Signer, E: Encoder>(&self, secret_key: &C::SecretKey) -> (r: Result<C::Signature, C::Error>) where
        Self: Encodable<E>,
        ensures
            exists|bytes: Vec<u8>|
                #[trigger] encodes_to::<Self, E>(self, bytes) && r == C::signing_result(*secret_key, bytes@),
            encodes_uniquely::<Self, E>(self) ==> forall|bytes: Vec<u8>| #[trigger]
                encodes_to::<Self, E>(self, bytes) ==> r == C::signing_result(*secret_key, bytes@),
            r matches Ok(s) ==> encoding_signed_by::<Self, E, C>(self, C::public_key_of(*secret_key), s),
    ;

    fn verify<C: Signer, E: Encoder>(
        &self,
        public_key: &C::PublicKey,
        signature: &C::Signature,
    ) -> (r: Result<bool, C::Error>) where Self: Encodable<E>
        ensures
            exists|bytes: Vec<u8>|
                #[trigger] encodes_to::<Self, E>(self, bytes) && r == C::verifying_result(
                    *public_key,
                    bytes@,
                    *signature,
                ),
            encodes_uniquely::<Self, E>(self) ==> forall|bytes: Vec<u8>| #[trigger]
                encodes_to::<Self, E>(self, bytes) ==> r == C::verifying_result(*public_key, bytes@, *signature),
            encodes_uniquely::<Self, E>(self) && encoding_signed_by::<Self, E, C>(self, *public_key, *signature)
                ==> r == Ok::<bool, C::Error>(true),
    ;
}

impl<P> SignableExt for P where P: Signable {
    fn sign_no_alloc<C: SignerBuf, E: Encoder>(
        &self,
        secret_key: &C::SecretKey,
        buf: &mut [u8],
    ) -> (r: Result<C::Signature, C::Error>) where P: Encodable<E> {
        let encode = <P as Encodable<E>>::encode;
        let encoded = encode(self);
        proof {
            assert(encodes_to::<P, E>(self, encoded));
        }
        C::sign_no_alloc(secret_key, encoded.as_slice(), buf)
    }

    fn verify_no_alloc<C: SignerBuf, E: Encoder>(
        &self,
        public_key: &C::PublicKey,
        signature: &C::Signature,
        buf: &mut [u8],
    ) -> (r: Result<bool, C::Error>) where P: Encodable<E> {
        let encode = <P as Encodable<E>>::encode;
        let encoded = encode(self);
        proof {
            assert(encodes_to::<P, E>(self, encoded));
        }
        C::verify_no_alloc(public_key, encoded.as_slice(), signature, buf)
    }

    fn sign<C: Signer, E: Encoder>(&self, secret_key: &C::SecretKey) -> (r: Result<C::Signature, C::Error>) where
        P: Encodable<E>,
    {
        let encode = <P as Encodable<E>>::encode;
        let encoded = encode(self);
        proof {
            assert(encodes_to::<P, E>(self, encoded));
        }
        C::sign(secret_key, encoded.as_slice())
    }

    fn verify<C: Signer, E: Encoder>(
        &self,
        public_key: &C::PublicKey,
        signature: &C::Signature,
    ) -> (r: Result<bool, C::Error>) where P: Encodable<E> {
        let encode = <P as Encodable<E>>::encode;
        let encoded = encode(self);
        proof {
            assert(encodes_to::<P, E>(self, encoded));
        }
        C::verify(public_key, encoded.as_slice(), signature)
    }
}

} // verus!
