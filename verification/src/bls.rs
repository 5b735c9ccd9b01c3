use vstd::prelude::*;
use crate::blst_ops::{
    bls_aggregate_serialized, bls_aggregate_verify, bls_key_gen, bls_key_validate, bls_sign,
    bls_signature_from_bytes, bls_sk_to_pk, blst_aggregate_serialized,
    blst_aggregate_signature_from_bytes, blst_aggregate_verify, blst_key_gen, blst_key_validate,
    blst_secret_key_from_bytes, blst_sign, blst_signature_from_bytes, blst_sk_to_pk, blst_verify,
    byte_vecs, ok_array, public_keys_of, secret_scalar_valid, signatures_by,
};
use crate::crypto::{Address, AggregateSigner, KeyPair, Signer, SignerBuf};
use crate::encode::{ssz_append_fixed_container, DecodeError, Encodable, Ssz};
use crate::digest::{prefixed_hex, sha256, sha256_digest, to_prefixed_hex};

verus! {

/// The outcomes `blst` reports (its `BLST_ERROR` codes, in order).
#[derive(Debug, Clone, Copy, PartialEq, Eq, Structural)]
pub enum BlstError {
    Success,
    BadEncoding,
    PointNotOnCurve,
    PointNotInGroup,
    AggrTypeMismatch,
    VerifyFail,
    PkIsInfinity,
    BadScalar,
}

/// The outcome that `blst` reports with code `code` (codes above 7 do not occur).
pub open spec fn blst_error_of(code: u32) -> BlstError {
    if code == 0 {
        BlstError::Success
    } else if code == 1 {
        BlstError::BadEncoding
    } else if code == 2 {
        BlstError::PointNotOnCurve
    } else if code == 3 {
        BlstError::PointNotInGroup
    } else if code == 4 {
        BlstError::AggrTypeMismatch
    } else if code == 5 {
        BlstError::VerifyFail
    } else if code == 6 {
        BlstError::PkIsInfinity
    } else {
        BlstError::BadScalar
    }
}

impl BlstError {
    /// The outcome with `blst` code `code`.
    pub fn from_code(code: u32) -> (e: BlstError)
        requires
            code <= 7,
        ensures
            e == blst_error_of(code),
    {
        if code == 0 {
            BlstError::Success
        } else if code == 1 {
            BlstError::BadEncoding
        } else if code == 2 {
            BlstError::PointNotOnCurve
        } else if code == 3 {
            BlstError::PointNotInGroup
        } else if code == 4 {
            BlstError::AggrTypeMismatch
        } else if code == 5 {
            BlstError::VerifyFail
        } else if code == 6 {
            BlstError::PkIsInfinity
        } else {
            BlstError::BadScalar
        }
    }
}

/// The name under which `blst` reports an outcome (its `Debug` text).
pub open spec fn blst_error_name(e: BlstError) -> Seq<char> {
    match e {
        BlstError::Success => "BLST_SUCCESS"@,
        BlstError::BadEncoding => "BLST_BAD_ENCODING"@,
        BlstError::PointNotOnCurve => "BLST_POINT_NOT_ON_CURVE"@,
        BlstError::PointNotInGroup => "BLST_POINT_NOT_IN_GROUP"@,
        BlstError::AggrTypeMismatch => "BLST_AGGR_TYPE_MISMATCH"@,
        BlstError::VerifyFail => "BLST_VERIFY_FAIL"@,
        BlstError::PkIsInfinity => "BLST_PK_IS_INFINITY"@,
        BlstError::BadScalar => "BLST_BAD_SCALAR"@,
    }
}

impl BlstError {
    /// The name under which `blst` reports this outcome.
    pub fn name(&self) -> (text: String)
        ensures
            text@ == blst_error_name(*self),
    {
        match self {
            BlstError::Success => String::from_str("BLST_SUCCESS"),
            BlstError::BadEncoding => String::from_str("BLST_BAD_ENCODING"),
            BlstError::PointNotOnCurve => String::from_str("BLST_POINT_NOT_ON_CURVE"),
            BlstError::PointNotInGroup => String::from_str("BLST_POINT_NOT_IN_GROUP"),
            BlstError::AggrTypeMismatch => String::from_str("BLST_AGGR_TYPE_MISMATCH"),
            BlstError::VerifyFail => String::from_str("BLST_VERIFY_FAIL"),
            BlstError::PkIsInfinity => String::from_str("BLST_PK_IS_INFINITY"),
            BlstError::BadScalar => String::from_str("BLST_BAD_SCALAR"),
        }
    }
}

/// Errors of the BLS scheme.
#[derive(Debug, Clone, Copy, PartialEq, Eq, Structural)]
pub enum Error {
    InvalidSecretKey(BlstError),
    InvalidPublicKey(BlstError),
    SignatureAggregationFailed(BlstError),
    InvalidSignature(BlstError),
    MessageTooLong { expected: usize, actual: usize },
}

/// A BLS secret key: the 32 big-endian bytes of a scalar `s` with `0 < s < r`.
pub struct SecretKey([u8; 32]);

/// A BLS public key (in G1): its 48 compressed bytes.
#[derive(Clone, Copy)]
pub struct PublicKey([u8; 48]);

/// The SHA-256 digest of a public key's compressed bytes.
#[derive(Clone, Copy)]
pub struct PublicKeyHash([u8; 32]);

/// A BLS signature (in G2): its 96 compressed bytes, which decode back to themselves.
pub struct Signature([u8; 96]);

/// An aggregate of BLS signatures: the 96 compressed bytes of its signature
/// point, which decode back to themselves.
pub struct AggregateSignature([u8; 96]);

impl View for SecretKey {
    type V = Seq<u8>;

    closed spec fn view(&self) -> Seq<u8> {
        self.0@
    }
}

impl View for PublicKey {
    type V = Seq<u8>;

    closed spec fn view(&self) -> Seq<u8> {
        self.0@
    }
}

impl View for PublicKeyHash {
    type V = Seq<u8>;

    closed spec fn view(&self) -> Seq<u8> {
        self.0@
    }
}

impl View for Signature {
    type V = Seq<u8>;

    closed spec fn view(&self) -> Seq<u8> {
        self.0@
    }
}

impl View for AggregateSignature {
    type V = Seq<u8>;

    closed spec fn view(&self) -> Seq<u8> {
        self.0@
    }
}

impl PublicKey {
    /// The public key with the compressed bytes `bytes`.
    pub closed spec fn of_bytes(bytes: [u8; 48]) -> PublicKey {
        PublicKey(bytes)
    }
}

impl PublicKeyHash {
    /// The address with the digest `bytes`.
    pub closed spec fn of_bytes(bytes: [u8; 32]) -> PublicKeyHash {
        PublicKeyHash(bytes)
    }
}

impl Signature {
    /// The signature with the compressed bytes `bytes`.
    pub closed spec fn of_bytes(bytes: [u8; 96]) -> Signature {
        Signature(bytes)
    }

    /// The bytes decode (`Signature::from_bytes`) back to themselves.
    #[verifier::type_invariant]
    pub open spec fn decodes(self) -> bool {
        bls_signature_from_bytes(self@) matches Ok(b) && b@ == self@
    }
}

impl AggregateSignature {
    /// The aggregate signature with the compressed bytes `bytes`.
    pub closed spec fn of_bytes(bytes: [u8; 96]) -> AggregateSignature {
        AggregateSignature(bytes)
    }

    /// The bytes decode (`Signature::from_bytes`) back to themselves.
    #[verifier::type_invariant]
    pub open spec fn decodes(self) -> bool {
        bls_signature_from_bytes(self@) matches Ok(b) && b@ == self@
    }
}

/// The lengths of the bytes of keys, addresses and signatures.
pub broadcast proof fn lemma_bls_lengths(
    k: SecretKey,
    p: PublicKey,
    h: PublicKeyHash,
    s: Signature,
    a: AggregateSignature,
)
    ensures
        #[trigger] k@.len() == 32,
        #[trigger] p@.len() == 48,
        #[trigger] h@.len() == 32,
        #[trigger] s@.len() == 96,
        #[trigger] a@.len() == 96,
{
}

/// Values built of bytes have those bytes.
pub broadcast proof fn lemma_bls_of_bytes(p: [u8; 48], h: [u8; 32], s: [u8; 96])
    ensures
        #[trigger] PublicKey::of_bytes(p)@ == p@,
        #[trigger] PublicKeyHash::of_bytes(h)@ == h@,
        #[trigger] Signature::of_bytes(s)@ == s@,
        #[trigger] AggregateSignature::of_bytes(s)@ == s@,
{
}

/// Values with the same bytes are the same.
pub broadcast proof fn lemma_bls_bytes_determine(
    p1: PublicKey,
    p2: PublicKey,
    h1: PublicKeyHash,
    h2: PublicKeyHash,
    s1: Signature,
    s2: Signature,
)
    ensures
        #[trigger] p1@ == #[trigger] p2@ ==> p1 == p2,
        #[trigger] h1@ == #[trigger] h2@ ==> h1 == h2,
        #[trigger] s1@ == #[trigger] s2@ ==> s1 == s2,
{
    broadcast use vstd::array::axiom_array_ext_equal;
    if p1@ == p2@ {
        assert(p1.0 == p2.0);
    }
    if h1@ == h2@ {
        assert(h1.0 == h2.0);
    }
    if s1@ == s2@ {
        assert(s1.0 == s2.0);
    }
}

impl SecretKey {
    #[verifier::type_invariant]
    spec fn valid_scalar(self) -> bool {
        secret_scalar_valid(self.0@)
    }

    /// Reads a secret key from its 32 big-endian bytes; refused unless the
    /// scalar is nonzero and below the group order.
    pub fn from_bytes(bytes: &[u8; 32]) -> (r: Result<Self, Error>)
        ensures
            secret_scalar_valid(bytes@) ==> (r matches Ok(k) && k@ == bytes@),
            !secret_scalar_valid(bytes@) ==> r == Err::<Self, Error>(
                Error::InvalidSecretKey(BlstError::BadEncoding),
            ),
    {
        match blst_secret_key_from_bytes(bytes) {
            Ok(b) => Ok(SecretKey(b)),
            Err(e) => Err(Error::InvalidSecretKey(BlstError::from_code(e))),
        }
    }

    /// Derives a secret key from 32 bytes of key material and `key_info`.
    pub fn key_gen(ikm: &[u8; 32], key_info: &[u8]) -> (r: Result<Self, Error>)
        ensures
            r matches Ok(k) && k@ == bls_key_gen(ikm@, key_info@)@,
    {
        match blst_key_gen(ikm, key_info) {
            Ok(b) => Ok(SecretKey(b)),
            Err(e) => Err(Error::InvalidSecretKey(BlstError::from_code(e))),
        }
    }

    /// The public key of this secret key; it passes `PublicKey::from_bytes`.
    pub fn to_public_key(&self) -> (public_key: PublicKey)
        ensures
            public_key@ == bls_sk_to_pk(self@)@,
            bls_key_validate(public_key@) matches Ok(b) && b@ == public_key@,
    {
        proof {
            use_type_invariant(self);
        }
        PublicKey(blst_sk_to_pk(&self.0))
    }
}

impl Clone for SecretKey {
    fn clone(&self) -> (copy: Self)
        ensures
            copy == *self,
    {
        proof {
            use_type_invariant(self);
        }
        SecretKey(self.0)
    }
}

impl PublicKey {
    /// Reads and validates a public key from its compressed bytes.
    pub fn from_bytes(bytes: &[u8; 48]) -> (r: Result<Self, Error>)
        ensures
            match bls_key_validate(bytes@) {
                Ok(b) => r matches Ok(k) && k@ == b@,
                Err(c) => r == Err::<Self, Error>(Error::InvalidPublicKey(blst_error_of(c))),
            },
            bytes@[0] < 128 ==> r == Err::<Self, Error>(Error::InvalidPublicKey(BlstError::BadEncoding)),
    {
        match blst_key_validate(bytes) {
            Ok(b) => Ok(PublicKey(b)),
            Err(e) => Err(Error::InvalidPublicKey(BlstError::from_code(e))),
        }
    }

    /// The address of this public key: the SHA-256 digest of its compressed bytes.
    fn address(&self) -> (hash: PublicKeyHash)
        ensures
            hash@ == sha256_digest(self@)@,
    {
        PublicKeyHash(sha256(&self.0))
    }

    /// `0x` followed by the lowercase hexadecimal compressed bytes.
    pub fn to_string(&self) -> (text: String)
        ensures
            text@ == prefixed_hex(self@),
    {
        to_prefixed_hex(&self.0)
    }
}

impl PublicKeyHash {
    /// `0x` followed by the lowercase hexadecimal digest.
    pub fn to_string(&self) -> (text: String)
        ensures
            text@ == prefixed_hex(self@),
    {
        to_prefixed_hex(&self.0)
    }
}

/// A secret key together with its public key and the public key's address.
pub struct SecretWallet {
    secret_key: SecretKey,
    public_key: PublicKey,
    public_key_hash: PublicKeyHash,
}

/// A public key together with its address.
pub struct PublicWallet {
    public_key: PublicKey,
    public_key_hash: PublicKeyHash,
}

impl SecretWallet {
    /// The wallet's secret key.
    pub closed spec fn secret_key(self) -> SecretKey {
        self.secret_key
    }

    /// The wallet's public key.
    pub closed spec fn public_key(self) -> PublicKey {
        self.public_key
    }

    /// The wallet's address.
    pub closed spec fn public_key_hash(self) -> PublicKeyHash {
        self.public_key_hash
    }

    /// The secret key is valid, the public key is that of the secret key, and
    /// the address is the SHA-256 digest of the public key.
    #[verifier::type_invariant]
    pub open spec fn consistent(self) -> bool {
        &&& secret_scalar_valid(self.secret_key()@)
        &&& self.public_key()@ == bls_sk_to_pk(self.secret_key()@)@
        &&& self.public_key_hash()@ == sha256_digest(self.public_key()@)@
    }

    /// The wallet that `From` builds of `secret_key`.
    pub closed spec fn of_secret_key(secret_key: SecretKey) -> SecretWallet {
        SecretWallet {
            secret_key,
            public_key: PublicKey(bls_sk_to_pk(secret_key@)),
            public_key_hash: PublicKeyHash(sha256_digest(bls_sk_to_pk(secret_key@)@)),
        }
    }
}

impl PublicWallet {
    /// The wallet's public key.
    pub closed spec fn public_key(self) -> PublicKey {
        self.public_key
    }

    /// The wallet's address.
    pub closed spec fn public_key_hash(self) -> PublicKeyHash {
        self.public_key_hash
    }

    /// The address is the SHA-256 digest of the public key.
    #[verifier::type_invariant]
    pub open spec fn consistent(self) -> bool {
        self.public_key_hash()@ == sha256_digest(self.public_key()@)@
    }

    /// The wallet that `From` builds of `public_key`.
    pub closed spec fn of_public_key(public_key: PublicKey) -> PublicWallet {
        PublicWallet { public_key, public_key_hash: PublicKeyHash(sha256_digest(public_key@)) }
    }
}

/// The wallet built of a secret key holds that key, its public key and that
/// public key's SHA-256 digest.
pub broadcast proof fn lemma_of_secret_key(secret_key: SecretKey)
    ensures
        #![trigger SecretWallet::of_secret_key(secret_key)]
        SecretWallet::of_secret_key(secret_key).secret_key() == secret_key,
        SecretWallet::of_secret_key(secret_key).public_key()@ == bls_sk_to_pk(secret_key@)@,
        SecretWallet::of_secret_key(secret_key).public_key_hash()@ == sha256_digest(bls_sk_to_pk(secret_key@)@)@,
{
}

/// The wallet built of a public key holds that key and its SHA-256 digest.
pub broadcast proof fn lemma_of_public_key(public_key: PublicKey)
    ensures
        #![trigger PublicWallet::of_public_key(public_key)]
        PublicWallet::of_public_key(public_key).public_key() == public_key,
        PublicWallet::of_public_key(public_key).public_key_hash()@ == sha256_digest(public_key@)@,
{
}

/// A public wallet is determined by its public key and its address.
pub broadcast proof fn lemma_public_wallet_parts(a: PublicWallet, b: PublicWallet)
    ensures
        #[trigger] a.public_key() == #[trigger] b.public_key() && a.public_key_hash() == b.public_key_hash()
            ==> a == b,
{
}

impl Clone for SecretWallet {
    fn clone(&self) -> (copy: Self)
        ensures
            copy == *self,
    {
        proof {
            use_type_invariant(self);
        }
        SecretWallet {
            secret_key: self.secret_key.clone(),
            public_key: self.public_key,
            public_key_hash: self.public_key_hash,
        }
    }
}

impl Clone for PublicWallet {
    fn clone(&self) -> (copy: Self)
        ensures
            copy == *self,
    {
        proof {
            use_type_invariant(self);
        }
        PublicWallet { public_key: self.public_key, public_key_hash: self.public_key_hash }
    }
}

impl From<SecretKey> for SecretWallet {
    /// The wallet of `secret_key`: the key, its public key and that key's address.
    fn from(secret_key: SecretKey) -> (wallet: Self)
        ensures
            wallet.secret_key() == secret_key,
            wallet.public_key()@ == bls_sk_to_pk(secret_key@)@,
            wallet.public_key_hash()@ == sha256_digest(bls_sk_to_pk(secret_key@)@)@,
    {
        proof {
            use_type_invariant(&secret_key);
        }
        let public_key = secret_key.to_public_key();
        let public_key_hash = public_key.address();
        let wallet = SecretWallet { secret_key, public_key, public_key_hash };
        proof {
            broadcast use vstd::array::axiom_array_ext_equal;
            assert(wallet.public_key.0 == bls_sk_to_pk(secret_key@));
            assert(wallet.public_key_hash.0 == sha256_digest(bls_sk_to_pk(secret_key@)@));
        }
        wallet
    }
}

impl vstd::std_specs::convert::FromSpecImpl<SecretKey> for SecretWallet {
    open spec fn obeys_from_spec() -> bool {
        true
    }

    open spec fn from_spec(v: SecretKey) -> Self {
        SecretWallet::of_secret_key(v)
    }
}

impl From<PublicKey> for PublicWallet {
    /// The wallet of `public_key`: the key and its address.
    fn from(public_key: PublicKey) -> (wallet: Self)
        ensures
            wallet.public_key() == public_key,
            wallet.public_key_hash()@ == sha256_digest(public_key@)@,
    {
        let public_key_hash = public_key.address();
        let wallet = PublicWallet { public_key, public_key_hash };
        proof {
            broadcast use vstd::array::axiom_array_ext_equal;
            assert(wallet.public_key_hash.0 == sha256_digest(public_key@));
        }
        wallet
    }
}

impl vstd::std_specs::convert::FromSpecImpl<PublicKey> for PublicWallet {
    open spec fn obeys_from_spec() -> bool {
        true
    }

    open spec fn from_spec(v: PublicKey) -> Self {
        PublicWallet::of_public_key(v)
    }
}

/// The domain separation tag of BLS signatures here:
/// `BLS_SIG_BLS12381G2_XMD:SHA-256_SSWU_RO_POP_`.
pub const DST: [u8; 43] = [
    66, 76, 83, 95, 83, 73, 71, 95, 66, 76, 83, 49, 50, 51, 56, 49, 71, 50, 95, 88, 77, 68, 58, 83,
    72, 65, 45, 50, 53, 54, 95, 83, 83, 87, 85, 95, 82, 79, 95, 80, 79, 80, 95,
];

/// The length of a compressed BLS signature.
pub const SIGNATURE_BYTES: usize = 96;

/// The BLS scheme of `blst` (public keys in G1), where every signed message is
/// prefixed with the signer's address.
pub struct Bls;

/// The message that is actually signed for an address: the address, then the message.
pub open spec fn prefixed_message(public_key_hash: Seq<u8>, message: Seq<u8>) -> Seq<u8> {
    public_key_hash + message
}

/// `signature` is the signature that `Bls` makes of `message` with `wallet`:
/// `blst`'s signature, by the wallet's secret key, of the wallet's address
/// followed by the message, under `DST` and with no augmentation.
pub open spec fn is_signature_of(wallet: SecretWallet, message: Seq<u8>, signature: Signature) -> bool {
    signature@ == bls_sign(
        wallet.secret_key()@,
        prefixed_message(wallet.public_key_hash()@, message),
        DST@,
        Seq::empty(),
    )@
}

/// `aggregate` is the aggregate that `Bls` makes of `signatures`.
pub open spec fn is_aggregate_of(signatures: Seq<Signature>, aggregate: AggregateSignature) -> bool {
    bls_aggregate_serialized(signature_bytes(signatures), false) matches Ok(b) && b@ == aggregate@
}

/// `signature` of `message` was made with a consistent secret wallet whose
/// public wallet is `wallet`.
pub open spec fn made_by(wallet: PublicWallet, message: Seq<u8>, signature: Signature) -> bool {
    exists|w: SecretWallet|
        w.consistent() && Bls::public_key_of(w) == wallet && #[trigger] is_signature_of(w, message, signature)
}

/// Each public wallet of `messages_with_pks` is that of the secret wallet at the
/// same index, which made the signature at that index of the message there.
pub open spec fn all_signed(
    messages_with_pks: Seq<(Seq<u8>, PublicWallet)>,
    wallets: Seq<SecretWallet>,
    signatures: Seq<Signature>,
) -> bool {
    &&& messages_with_pks.len() > 0
    &&& wallets.len() == messages_with_pks.len()
    &&& signatures.len() == messages_with_pks.len()
    &&& forall|i: int|
        0 <= i < messages_with_pks.len() ==> {
            &&& (#[trigger] wallets[i]).consistent()
            &&& Bls::public_key_of(wallets[i]) == messages_with_pks[i].1
            &&& is_signature_of(wallets[i], messages_with_pks[i].0, signatures[i])
        }
}

/// `aggregate` aggregates, for each pair of message and public wallet, a
/// signature of the message made with a secret wallet of that public wallet.
pub open spec fn aggregate_made_by(
    messages_with_pks: Seq<(Seq<u8>, PublicWallet)>,
    aggregate: AggregateSignature,
) -> bool {
    exists|wallets: Seq<SecretWallet>, signatures: Seq<Signature>|
        #[trigger] all_signed(messages_with_pks, wallets, signatures) && is_aggregate_of(signatures, aggregate)
}

/// The compressed bytes of each signature.
pub open spec fn signature_bytes(signatures: Seq<Signature>) -> Seq<Seq<u8>> {
    signatures.map_values(|s: Signature| s@)
}

/// The signed message of each pair: the address of its public key, then its message.
pub open spec fn signed_messages(messages_with_pks: Seq<(Seq<u8>, PublicWallet)>) -> Seq<Seq<u8>> {
    messages_with_pks.map_values(
        |p: (Seq<u8>, PublicWallet)| prefixed_message(p.1.public_key_hash()@, p.0),
    )
}

/// The compressed public key of each pair.
pub open spec fn signer_keys(messages_with_pks: Seq<(Seq<u8>, PublicWallet)>) -> Seq<Seq<u8>> {
    messages_with_pks.map_values(|p: (Seq<u8>, PublicWallet)| p.1.public_key()@)
}

impl Bls {
    /// Writes the address followed by `message` at the start of `buf`, and
    /// returns how many bytes were written; refused when `buf` is too short.
    fn prepend_pkh_no_alloc(message: &[u8], pkh: &PublicKeyHash, buf: &mut [u8]) -> (r: Result<usize, Error>)
        requires
            message@.len() <= isize::MAX,
        ensures
            old(buf)@.len() < 32 + message@.len() ==> {
                &&& r == Err::<usize, Error>(
                    Error::MessageTooLong { expected: (32 + message@.len()) as usize, actual: old(buf)@.len() as usize },
                )
                &&& final(buf)@ == old(buf)@
            },
            old(buf)@.len() >= 32 + message@.len() ==> {
                &&& r == Ok::<usize, Error>((32 + message@.len()) as usize)
                &&& final(buf)@ == prefixed_message(pkh@, message@) + old(buf)@.subrange(
                    32 + message@.len() as int,
                    old(buf)@.len() as int,
                )
                &&& final(buf)@.subrange(0, 32 + message@.len() as int) == pkh@ + message@
                &&& forall|i: int| 0 <= i < message@.len() ==> #[trigger] final(buf)@[32 + i] == message@[i]
            },
    {
        let pkh_len = pkh.0.len();
        let message_len = message.len();
        if buf.len() < pkh_len + message_len {
            return Err(Error::MessageTooLong { expected: pkh_len + message_len, actual: buf.len() });
        }
        let ghost old_buf = buf@;
        let mut i: usize = 0;
        while i < pkh_len
            invariant
                pkh_len == 32,
                buf@.len() == old_buf.len(),
                old_buf.len() >= pkh_len + message_len,
                i <= pkh_len,
                forall|j: int| 0 <= j < i ==> buf@[j] == pkh@[j],
                forall|j: int| i <= j < old_buf.len() ==> buf@[j] == old_buf[j],
            decreases pkh_len - i,
        {
            buf[i] = pkh.0[i];
            i = i + 1;
        }
        let mut k: usize = 0;
        while k < message_len
            invariant
                pkh_len == 32,
                message_len == message@.len(),
                message_len <= isize::MAX,
                buf@.len() == old_buf.len(),
                old_buf.len() >= pkh_len + message_len,
                k <= message_len,
                forall|j: int| 0 <= j < pkh_len ==> buf@[j] == pkh@[j],
                forall|j: int| 0 <= j < k ==> buf@[pkh_len + j] == message@[j],
                forall|j: int| pkh_len + k <= j < old_buf.len() ==> buf@[j] == old_buf[j],
            decreases message_len - k,
        {
            buf[pkh_len + k] = message[k];
            k = k + 1;
        }
        assert(buf@ =~= prefixed_message(pkh@, message@) + old_buf.subrange(
            32 + message@.len() as int,
            old_buf.len() as int,
        ));
        Ok(pkh_len + message_len)
    }

    /// The address followed by `message`, in a new vector.
    fn prepend_pkh_owned(message: &[u8], pkh: &PublicKeyHash) -> (prefixed: Vec<u8>)
        ensures
            prefixed@ == prefixed_message(pkh@, message@),
            prefixed@ == pkh@ + message@,
            prefixed@.len() == 32 + message@.len(),
            forall|i: int| 0 <= i < message@.len() ==> #[trigger] prefixed@[32 + i] == message@[i],
    {
        let mut buf: Vec<u8> = Vec::new();
        buf.extend_from_slice(pkh.0.as_slice());
        buf.extend_from_slice(message);
        assert(buf@ =~= prefixed_message(pkh@, message@));
        buf
    }
}

/// The public wallet of a consistent secret wallet holds the secret wallet's
/// public key and address: the address is the SHA-256 digest of the public key
/// of the secret key.
pub proof fn lemma_public_wallet_of_secret_wallet(wallet: SecretWallet)
    requires
        wallet.consistent(),
    ensures
        Bls::public_key_of(wallet).public_key() == wallet.public_key(),
        Bls::public_key_of(wallet).public_key_hash() == wallet.public_key_hash(),
        Bls::address_of(Bls::public_key_of(wallet))@ == sha256_digest(bls_sk_to_pk(wallet.secret_key()@)@)@,
{
    broadcast use vstd::array::axiom_array_ext_equal;
    assert(Bls::public_key_of(wallet).public_key_hash.0 == wallet.public_key_hash.0);
}

impl KeyPair for Bls {
    type SecretKey = SecretWallet;
    type PublicKey = PublicWallet;

    open spec fn public_key_of(secret_key: SecretWallet) -> PublicWallet {
        PublicWallet::of_public_key(secret_key.public_key())
    }

    fn to_public_key(secret_wallet: &SecretWallet) -> (public_wallet: PublicWallet)
        ensures
            public_wallet.public_key() == secret_wallet.public_key(),
            public_wallet.public_key_hash() == secret_wallet.public_key_hash(),
            public_wallet.public_key()@ == bls_sk_to_pk(secret_wallet.secret_key()@)@,
            public_wallet.public_key_hash()@ == sha256_digest(bls_sk_to_pk(secret_wallet.secret_key()@)@)@,
    {
        proof {
            use_type_invariant(secret_wallet);
            lemma_public_wallet_of_secret_wallet(*secret_wallet);
        }
        PublicWallet {
            public_key: secret_wallet.public_key,
            public_key_hash: secret_wallet.public_key_hash,
        }
    }
}

impl Address for Bls {
    type PublicKeyHash = PublicKeyHash;

    open spec fn address_of(public_key: PublicWallet) -> PublicKeyHash {
        public_key.public_key_hash()
    }

    fn address(public_wallet: &PublicWallet) -> (hash: PublicKeyHash)
        ensures
            hash == public_wallet.public_key_hash(),
            hash@ == sha256_digest(public_wallet.public_key()@)@,
    {
        proof {
            use_type_invariant(public_wallet);
        }
        public_wallet.public_key_hash
    }
}

impl Signer for Bls {
    type Signature = Signature;
    type Error = Error;

    open spec fn signing_result(secret_key: SecretWallet, message: Seq<u8>) -> Result<Signature, Error> {
        Ok(
            Signature::of_bytes(
                bls_sign(
                    secret_key.secret_key()@,
                    prefixed_message(secret_key.public_key_hash()@, message),
                    DST@,
                    Seq::empty(),
                ),
            ),
        )
    }

    open spec fn signed_by(public_key: PublicWallet, message: Seq<u8>, signature: Signature) -> bool {
        made_by(public_key, message, signature)
    }

    open spec fn verifying_result(public_key: PublicWallet, message: Seq<u8>, signature: Signature) -> Result<bool, Error> {
        Ok(
            bls_aggregate_verify(
                signature@,
                true,
                seq![prefixed_message(public_key.public_key_hash()@, message)],
                DST@,
                seq![public_key.public_key()@],
                false,
            ) == 0,
        )
    }

    fn sign(wallet: &SecretWallet, message: &[u8]) -> (r: Result<Signature, Error>)
        ensures
            r matches Ok(s) && is_signature_of(*wallet, message@, s),
            r matches Ok(s) && s@ == bls_sign(
                wallet.secret_key()@,
                wallet.public_key_hash()@ + message@,
                DST@,
                Seq::empty(),
            )@,
    {
        proof {
            use_type_invariant(wallet);
            use_type_invariant(&wallet.secret_key);
        }
        let pk_hash = wallet.public_key_hash;
        let prefixed = Bls::prepend_pkh_owned(message, &pk_hash);
        let aug: [u8; 0] = [];
        proof {
            assert(aug@ =~= Seq::<u8>::empty());
        }
        let signature = Signature(blst_sign(&wallet.secret_key.0, prefixed.as_slice(), DST.as_slice(), aug.as_slice()));
        proof {
            assert(is_signature_of(*wallet, message@, signature));
            assert(Bls::public_key_of(*wallet) == Bls::public_key_of(*wallet));
        }
        Ok(signature)
    }

    fn verify(wallet: &PublicWallet, message: &[u8], signature: &Signature) -> (r: Result<bool, Error>)
        ensures
            r == Ok::<bool, Error>(
                bls_aggregate_verify(
                    signature@,
                    true,
                    seq![wallet.public_key_hash()@ + message@],
                    DST@,
                    seq![wallet.public_key()@],
                    false,
                ) == 0,
            ),
    {
        let pk_hash = wallet.public_key_hash;
        let prefixed = Bls::prepend_pkh_owned(message, &pk_hash);
        let aug: [u8; 0] = [];
        proof {
            assert(aug@ =~= Seq::<u8>::empty());
            assert(aug@ + prefixed@ =~= prefixed@);
        }
        let code = blst_verify(&signature.0, true, prefixed.as_slice(), DST.as_slice(), aug.as_slice(), &wallet.public_key.0, false);
        proof {
            if made_by(*wallet, message@, *signature) {
                let secret = Bls::lemma_made_by(*wallet, message@, *signature, prefixed@);
                assert(bls_sign(secret, prefixed@, DST@, aug@) == signature.0);
            }
        }
        Ok(code == 0)
    }
}

impl Bls {
    /// What a signature made by a wallet gives the check of `blst`: the signer's
    /// secret key, whose public key is the wallet's, signed the prefixed message.
    proof fn lemma_made_by(wallet: PublicWallet, message: Seq<u8>, signature: Signature, signed: Seq<u8>) -> (secret: Seq<u8>)
        requires
            made_by(wallet, message, signature),
            signed == prefixed_message(wallet.public_key_hash()@, message),
        ensures
            secret_scalar_valid(secret),
            signature.0 == bls_sign(secret, signed, DST@, Seq::empty()),
            wallet.public_key.0 == bls_sk_to_pk(secret),
    {
        broadcast use vstd::array::axiom_array_ext_equal;
        let w = choose|w: SecretWallet|
            w.consistent() && Bls::public_key_of(w) == wallet && #[trigger] is_signature_of(w, message, signature);
        assert(wallet.public_key_hash.0 == w.public_key_hash.0);
        assert(signature.0 == bls_sign(w.secret_key@, signed, DST@, Seq::empty()));
        assert(wallet.public_key.0 == bls_sk_to_pk(w.secret_key@));
        w.secret_key@
    }
}

impl SignerBuf for Bls {
    open spec fn fits_in_buffer(message_len: nat, buf_len: nat) -> bool {
        buf_len >= 32 + message_len
    }

    fn sign_no_alloc(wallet: &SecretWallet, message: &[u8], buf: &mut [u8]) -> (r: Result<Signature, Error>)
        ensures
            old(buf)@.len() < 32 + message@.len() ==> {
                &&& r == Err::<Signature, Error>(
                    Error::MessageTooLong { expected: (32 + message@.len()) as usize, actual: old(buf)@.len() as usize },
                )
                &&& final(buf)@ == old(buf)@
            },
            old(buf)@.len() >= 32 + message@.len() ==> final(buf)@ == prefixed_message(
                wallet.public_key_hash()@,
                message@,
            ) + old(buf)@.subrange(32 + message@.len() as int, old(buf)@.len() as int),
            old(buf)@.len() >= 32 + message@.len() ==> (r matches Ok(s) && is_signature_of(*wallet, message@, s)),
            old(buf)@.len() >= 32 + message@.len() ==> (r matches Ok(s) && s@ == bls_sign(
                wallet.secret_key()@,
                wallet.public_key_hash()@ + message@,
                DST@,
                Seq::empty(),
            )@),
            old(buf)@.len() >= 32 + message@.len() ==> final(buf)@.subrange(0, 32 + message@.len() as int)
                == wallet.public_key_hash()@ + message@,
    {
        proof {
            use_type_invariant(wallet);
            use_type_invariant(&wallet.secret_key);
        }
        let pk_hash = wallet.public_key_hash;
        let len = match Bls::prepend_pkh_no_alloc(message, &pk_hash, buf) {
            Ok(len) => len,
            Err(e) => return Err(e),
        };
        let aug: [u8; 0] = [];
        let signed = &buf[0..len];
        proof {
            assert(aug@ =~= Seq::<u8>::empty());
            assert(signed@ =~= prefixed_message(pk_hash@, message@));
        }
        let signature = Signature(blst_sign(&wallet.secret_key.0, signed, DST.as_slice(), aug.as_slice()));
        proof {
            assert(is_signature_of(*wallet, message@, signature));
        }
        Ok(signature)
    }

    fn verify_no_alloc(
        wallet: &PublicWallet,
        message: &[u8],
        signature: &Signature,
        buf: &mut [u8],
    ) -> (r: Result<bool, Error>)
        ensures
            old(buf)@.len() < 32 + message@.len() ==> {
                &&& r == Err::<bool, Error>(
                    Error::MessageTooLong { expected: (32 + message@.len()) as usize, actual: old(buf)@.len() as usize },
                )
                &&& final(buf)@ == old(buf)@
            },
            old(buf)@.len() >= 32 + message@.len() ==> final(buf)@ == prefixed_message(
                wallet.public_key_hash()@,
                message@,
            ) + old(buf)@.subrange(32 + message@.len() as int, old(buf)@.len() as int),
            old(buf)@.len() >= 32 + message@.len() ==> r is Ok,
            old(buf)@.len() >= 32 + message@.len() ==> r == Ok::<bool, Error>(
                bls_aggregate_verify(
                    signature@,
                    true,
                    seq![wallet.public_key_hash()@ + message@],
                    DST@,
                    seq![wallet.public_key()@],
                    false,
                ) == 0,
            ),
            old(buf)@.len() >= 32 + message@.len() ==> final(buf)@.subrange(0, 32 + message@.len() as int)
                == wallet.public_key_hash()@ + message@,
    {
        let pk_hash = wallet.public_key_hash;
        let len = match Bls::prepend_pkh_no_alloc(message, &pk_hash, buf) {
            Ok(len) => len,
            Err(e) => return Err(e),
        };
        let aug: [u8; 0] = [];
        let signed = &buf[0..len];
        proof {
            assert(aug@ =~= Seq::<u8>::empty());
            assert(signed@ =~= prefixed_message(pk_hash@, message@));
            assert(aug@ + signed@ =~= signed@);
        }
        // The only way to create a public key is either by converting a
        // secret key or by `PublicKey::from_bytes`, which validates it.
        let code = blst_verify(&signature.0, true, signed, DST.as_slice(), aug.as_slice(), &wallet.public_key.0, false);
        proof {
            if made_by(*wallet, message@, *signature) {
                let secret = Bls::lemma_made_by(*wallet, message@, *signature, signed@);
                assert(bls_sign(secret, signed@, DST@, aug@) == signature.0);
            }
        }
        Ok(code == 0)
    }
}

/// Copies exactly `N` bytes into an array.
fn to_array<const N: usize>(bytes: &[u8]) -> (array: [u8; N])
    requires
        bytes@.len() == N,
    ensures
        array@ == bytes@,
{
    let mut array = [0u8; N];
    let mut i: usize = 0;
    while i < N
        invariant
            bytes@.len() == N,
            array@.len() == N,
            i <= N,
            forall|j: int| 0 <= j < i ==> array@[j] == bytes@[j],
        decreases N - i,
    {
        array[i] = bytes[i];
        i = i + 1;
    }
    assert(array@ =~= bytes@);
    array
}

impl Signature {
    /// Reads a signature from its compressed bytes.
    pub fn from_bytes(bytes: &[u8; 96]) -> (r: Result<Self, Error>)
        ensures
            match bls_signature_from_bytes(bytes@) {
                Ok(b) => r matches Ok(s) && s@ == b@,
                Err(c) => r == Err::<Self, Error>(Error::InvalidSignature(blst_error_of(c))),
            },
            bytes@[0] < 128 ==> r == Err::<Self, Error>(Error::InvalidSignature(BlstError::BadEncoding)),
    {
        match blst_signature_from_bytes(bytes) {
            Ok(b) => Ok(Signature(b)),
            Err(e) => Err(Error::InvalidSignature(BlstError::from_code(e))),
        }
    }

    /// A signature's SSZ encoding has a fixed length.
    pub fn is_ssz_fixed_len() -> (fixed: bool)
        ensures
            fixed,
    {
        true
    }

    /// The fixed length of a signature's SSZ encoding.
    pub fn ssz_fixed_len() -> (len: usize)
        ensures
            len == SIGNATURE_BYTES,
    {
        SIGNATURE_BYTES
    }

    /// The length of this signature's SSZ encoding.
    pub fn ssz_bytes_len(&self) -> (len: usize)
        ensures
            len == SIGNATURE_BYTES,
            len == self@.len(),
    {
        SIGNATURE_BYTES
    }

    /// Appends the SSZ encoding of this signature (its compressed bytes) to `buf`.
    pub fn ssz_append(&self, buf: &mut Vec<u8>)
        ensures
            final(buf)@ == old(buf)@ + self@,
            final(buf)@.len() == old(buf)@.len() + SIGNATURE_BYTES,
    {
        ssz_append_fixed_container(buf, SIGNATURE_BYTES, &self.0);
    }

    /// Decodes a signature from its SSZ encoding.
    pub fn from_ssz_bytes(bytes: &[u8]) -> (r: Result<Self, DecodeError>)
        ensures
            bytes@.len() != SIGNATURE_BYTES ==> (r matches Err(DecodeError::InvalidByteLength { len, expected })
                && len == bytes@.len() && expected == SIGNATURE_BYTES),
            bytes@.len() == SIGNATURE_BYTES ==> match bls_signature_from_bytes(bytes@) {
                Ok(b) => r matches Ok(s) && s@ == b@,
                Err(c) => r matches Err(DecodeError::BytesInvalid(text)) && text@ == blst_error_name(
                    blst_error_of(c),
                ),
            },
            bytes@.len() == SIGNATURE_BYTES && bytes@[0] < 128 ==> (r matches Err(DecodeError::BytesInvalid(text))
                && text@ == blst_error_name(BlstError::BadEncoding)),
    {
        if bytes.len() != SIGNATURE_BYTES {
            return Err(DecodeError::InvalidByteLength { len: bytes.len(), expected: SIGNATURE_BYTES });
        }
        let array: [u8; 96] = to_array(bytes);
        match blst_signature_from_bytes(&array) {
            Ok(b) => Ok(Signature(b)),
            Err(e) => Err(DecodeError::BytesInvalid(BlstError::from_code(e).name())),
        }
    }
}

impl Encodable<Ssz> for Signature {
    /// The SSZ encoding: the compressed bytes.
    fn encode(&self) -> (bytes: Vec<u8>)
        ensures
            bytes@ == self@,
            bytes@.len() == SIGNATURE_BYTES,
    {
        let mut bytes: Vec<u8> = Vec::new();
        self.ssz_append(&mut bytes);
        bytes
    }
}

impl AggregateSignature {
    /// Reads a single signature from its compressed bytes as an aggregate.
    pub fn from_bytes(bytes: &[u8; 96]) -> (r: Result<Self, Error>)
        ensures
            match bls_signature_from_bytes(bytes@) {
                Ok(b) => r matches Ok(a) && a@ == b@,
                Err(c) => r == Err::<Self, Error>(Error::InvalidSignature(blst_error_of(c))),
            },
            bytes@[0] < 128 ==> r == Err::<Self, Error>(Error::InvalidSignature(BlstError::BadEncoding)),
    {
        match blst_aggregate_signature_from_bytes(bytes) {
            Ok(b) => Ok(AggregateSignature(b)),
            Err(e) => Err(Error::InvalidSignature(BlstError::from_code(e))),
        }
    }

    /// An aggregate signature's SSZ encoding has a fixed length.
    pub fn is_ssz_fixed_len() -> (fixed: bool)
        ensures
            fixed,
    {
        true
    }

    /// The fixed length of an aggregate signature's SSZ encoding.
    pub fn ssz_fixed_len() -> (len: usize)
        ensures
            len == SIGNATURE_BYTES,
    {
        SIGNATURE_BYTES
    }

    /// The length of this aggregate signature's SSZ encoding.
    pub fn ssz_bytes_len(&self) -> (len: usize)
        ensures
            len == SIGNATURE_BYTES,
            len == self@.len(),
    {
        SIGNATURE_BYTES
    }

    /// Appends the SSZ encoding of this aggregate signature (the compressed
    /// bytes of its signature point) to `buf`.
    pub fn ssz_append(&self, buf: &mut Vec<u8>)
        ensures
            final(buf)@ == old(buf)@ + self@,
            final(buf)@.len() == old(buf)@.len() + SIGNATURE_BYTES,
    {
        ssz_append_fixed_container(buf, SIGNATURE_BYTES, &self.0);
    }

    /// Decodes an aggregate signature from the SSZ encoding of a signature.
    pub fn from_ssz_bytes(bytes: &[u8]) -> (r: Result<Self, DecodeError>)
        ensures
            bytes@.len() != SIGNATURE_BYTES ==> (r matches Err(DecodeError::InvalidByteLength { len, expected })
                && len == bytes@.len() && expected == SIGNATURE_BYTES),
            bytes@.len() == SIGNATURE_BYTES ==> match bls_signature_from_bytes(bytes@) {
                Ok(b) => r matches Ok(s) && s@ == b@,
                Err(c) => r matches Err(DecodeError::BytesInvalid(text)) && text@ == blst_error_name(
                    blst_error_of(c),
                ),
            },
            bytes@.len() == SIGNATURE_BYTES && bytes@[0] < 128 ==> (r matches Err(DecodeError::BytesInvalid(text))
                && text@ == blst_error_name(BlstError::BadEncoding)),
    {
        if bytes.len() != SIGNATURE_BYTES {
            return Err(DecodeError::InvalidByteLength { len: bytes.len(), expected: SIGNATURE_BYTES });
        }
        let array: [u8; 96] = to_array(bytes);
        match blst_aggregate_signature_from_bytes(&array) {
            Ok(b) => Ok(AggregateSignature(b)),
            Err(e) => Err(DecodeError::BytesInvalid(BlstError::from_code(e).name())),
        }
    }
}

impl Encodable<Ssz> for AggregateSignature {
    /// The SSZ encoding: the compressed bytes of the signature point.
    fn encode(&self) -> (bytes: Vec<u8>)
        ensures
            bytes@ == self@,
            bytes@.len() == SIGNATURE_BYTES,
    {
        let mut bytes: Vec<u8> = Vec::new();
        self.ssz_append(&mut bytes);
        bytes
    }
}

impl AggregateSigner for Bls {
    type AggregateSignature = AggregateSignature;

    open spec fn aggregation_result(signatures: Seq<Signature>) -> Result<AggregateSignature, Error> {
        match bls_aggregate_serialized(signature_bytes(signatures), false) {
            Ok(b) => Ok(AggregateSignature::of_bytes(b)),
            Err(c) => Err(Error::SignatureAggregationFailed(blst_error_of(c))),
        }
    }

    open spec fn aggregate_verification(
        messages_with_pks: Seq<(Seq<u8>, PublicWallet)>,
        aggregate_signature: AggregateSignature,
    ) -> bool {
        bls_aggregate_verify(
            aggregate_signature@,
            true,
            signed_messages(messages_with_pks),
            DST@,
            signer_keys(messages_with_pks),
            false,
        ) == 0
    }

    fn aggregate_signatures(signatures: &[Signature]) -> (r: Result<AggregateSignature, Error>)
        ensures
            signatures@.len() == 0 ==> r == Err::<AggregateSignature, Error>(
                Error::SignatureAggregationFailed(BlstError::AggrTypeMismatch),
            ),
            signatures@.len() > 0 ==> r is Ok,
            signatures@.len() == 1 ==> (r matches Ok(a) && a@ == signatures@[0]@),
            r matches Ok(a) ==> is_aggregate_of(signatures@, a),
            r == match bls_aggregate_serialized(signatures@.map_values(|s: Signature| s@), false) {
                Ok(b) => Ok::<AggregateSignature, Error>(AggregateSignature::of_bytes(b)),
                Err(c) => Err::<AggregateSignature, Error>(Error::SignatureAggregationFailed(blst_error_of(c))),
            },
    {
        let mut raw: Vec<[u8; 96]> = Vec::new();
        let n = signatures.len();
        for i in 0..n
            invariant
                n == signatures@.len(),
                raw@.len() == i,
                forall|j: int| 0 <= j < i ==> #[trigger] raw@[j] == signatures@[j].0,
                forall|j: int|
                    0 <= j < i ==> (bls_signature_from_bytes((#[trigger] raw@[j])@) matches Ok(b) && b@ == raw@[j]@),
        {
            let signature = &signatures[i];
            proof {
                use_type_invariant(signature);
            }
            raw.push(signature.0);
        }
        proof {
            assert(raw@.map_values(|s: [u8; 96]| s@) =~= signature_bytes(signatures@));
        }
        match blst_aggregate_serialized(raw.as_slice(), false) {
            Ok(b) => {
                let aggregate = AggregateSignature(b);
                proof {
                    if n == 1 {
                        broadcast use vstd::array::axiom_array_ext_equal;
                        assert(b@ == signatures@[0]@);
                    }
                }
                Ok(aggregate)
            },
            Err(e) => Err(Error::SignatureAggregationFailed(BlstError::from_code(e))),
        }
    }

    fn verify_aggregate_signature(
        messages_with_pks: &[(&[u8], &PublicWallet)],
        aggregate_signature: &AggregateSignature,
    ) -> (valid: bool)
        ensures
            messages_with_pks@.len() == 0 ==> !valid,
            aggregate_made_by(
                messages_with_pks@.map_values(|p: (&[u8], &PublicWallet)| (p.0@, *p.1)),
                *aggregate_signature,
            ) ==> valid,
            messages_with_pks@.len() == 1 ==> forall|s: Signature|
                s@ == aggregate_signature@ ==> (valid <==> Bls::verifying_result(
                    *messages_with_pks@[0].1,
                    messages_with_pks@[0].0@,
                    s,
                ) == Ok::<bool, Error>(true)),
            valid == (bls_aggregate_verify(
                aggregate_signature@,
                true,
                Seq::new(
                    messages_with_pks@.len(),
                    |i: int| messages_with_pks@[i].1.public_key_hash()@ + messages_with_pks@[i].0@,
                ),
                DST@,
                Seq::new(messages_with_pks@.len(), |i: int| messages_with_pks@[i].1.public_key()@),
                false,
            ) == 0),
    {
        let mut messages: Vec<Vec<u8>> = Vec::new();
        let mut public_keys: Vec<[u8; 48]> = Vec::new();
        let n = messages_with_pks.len();
        for i in 0..n
            invariant
                n == messages_with_pks@.len(),
                messages@.len() == i,
                public_keys@.len() == i,
                forall|j: int|
                    0 <= j < i ==> #[trigger] messages@[j]@ == prefixed_message(
                        messages_with_pks@[j].1.public_key_hash()@,
                        messages_with_pks@[j].0@,
                    ),
                forall|j: int| 0 <= j < i ==> #[trigger] public_keys@[j] == messages_with_pks@[j].1.public_key().0,
        {
            let (message, public_key) = messages_with_pks[i];
            let pk_hash = public_key.public_key_hash;
            messages.push(Bls::prepend_pkh_owned(message, &pk_hash));
            public_keys.push(public_key.public_key.0);
        }
        let ghost pairs = messages_with_pks@.map_values(|p: (&[u8], &PublicWallet)| (p.0@, *p.1));
        proof {
            assert(byte_vecs(messages@) =~= signed_messages(pairs));
            assert(public_keys@.map_values(|k: [u8; 48]| k@) =~= signer_keys(pairs));
            assert(byte_vecs(messages@) =~= Seq::new(
                messages_with_pks@.len(),
                |i: int| messages_with_pks@[i].1.public_key_hash()@ + messages_with_pks@[i].0@,
            ));
            assert(public_keys@.map_values(|k: [u8; 48]| k@) =~= Seq::new(
                messages_with_pks@.len(),
                |i: int| messages_with_pks@[i].1.public_key()@,
            ));
            if n == 1 {
                assert(signed_messages(pairs) =~= seq![
                    prefixed_message(messages_with_pks@[0].1.public_key_hash()@, messages_with_pks@[0].0@),
                ]);
                assert(signer_keys(pairs) =~= seq![messages_with_pks@[0].1.public_key()@]);
            }
        }
        // The only way to create a public key is either by converting a
        // secret key or by `PublicKey::from_bytes`, which validates it.
        let code = blst_aggregate_verify(
            &aggregate_signature.0,
            true,
            messages.as_slice(),
            DST.as_slice(),
            public_keys.as_slice(),
            false,
        );
        proof {
            if aggregate_made_by(pairs, *aggregate_signature) {
                broadcast use vstd::array::axiom_array_ext_equal;
                let (wallets, sigs) = choose|wallets: Seq<SecretWallet>, sigs: Seq<Signature>|
                    #[trigger] all_signed(pairs, wallets, sigs) && is_aggregate_of(sigs, *aggregate_signature);
                let secrets = wallets.map_values(|w: SecretWallet| w.secret_key()@);
                assert forall|i: int| 0 <= i < secrets.len() implies secret_scalar_valid(#[trigger] secrets[i]) by {
                    assert(wallets[i].consistent());
                }
                assert(public_keys@.map_values(|k: [u8; 48]| k@) =~= public_keys_of(secrets)) by {
                    assert forall|i: int| 0 <= i < secrets.len() implies
                        #[trigger] public_keys@[i]@ == bls_sk_to_pk(secrets[i])@ by {
                        assert(wallets[i].consistent());
                        assert(Bls::public_key_of(wallets[i]) == pairs[i].1);
                        assert(public_keys@[i] == messages_with_pks@[i].1.public_key().0);
                    }
                }
                assert(signatures_by(secrets, byte_vecs(messages@), DST@) =~= signature_bytes(sigs)) by {
                    assert forall|i: int| 0 <= i < secrets.len() implies
                        #[trigger] signatures_by(secrets, byte_vecs(messages@), DST@)[i] == signature_bytes(sigs)[i] by {
                        assert(wallets[i].consistent());
                        assert(Bls::public_key_of(wallets[i]) == pairs[i].1);
                        assert(pairs[i].1.public_key_hash.0 == wallets[i].public_key_hash.0);
                        assert(is_signature_of(wallets[i], pairs[i].0, sigs[i]));
                        assert(messages@[i]@ == prefixed_message(
                            messages_with_pks@[i].1.public_key_hash()@,
                            messages_with_pks@[i].0@,
                        ));
                    }
                }
                let b = bls_aggregate_serialized(signature_bytes(sigs), false)->Ok_0;
                assert(b == aggregate_signature.0);
            }
        }
        code == 0
    }
}


/// The message that `Bls` signs for an address of 32 bytes is that address
/// followed by the whole message: the message's bytes stand at offset 32, so
/// distinct messages give distinct signed bytes.
pub proof fn lemma_prefixed_message(public_key_hash: Seq<u8>, message: Seq<u8>, other: Seq<u8>)
    requires
        public_key_hash.len() == 32,
    ensures
        prefixed_message(public_key_hash, message).len() == 32 + message.len(),
        prefixed_message(public_key_hash, message).subrange(0, 32) == public_key_hash,
        forall|i: int| 0 <= i < message.len() ==> #[trigger] prefixed_message(public_key_hash, message)[32 + i] == message[i],
        prefixed_message(public_key_hash, message) == prefixed_message(public_key_hash, other) ==> message == other,
{
    if prefixed_message(public_key_hash, message) == prefixed_message(public_key_hash, other) {
        assert(message =~= prefixed_message(public_key_hash, message).subrange(32, 32 + message.len() as int));
        assert(other =~= prefixed_message(public_key_hash, other).subrange(32, 32 + other.len() as int));
    }
    assert(prefixed_message(public_key_hash, message).subrange(0, 32) =~= public_key_hash);
}

/// Signing with `Bls` gives `blst`'s signature, by the wallet's secret key, of
/// the SHA-256 digest of the wallet's compressed public key followed by the
/// message, under `DST` and with no augmentation.
pub proof fn lemma_bls_signing_result(wallet: SecretWallet, message: Seq<u8>)
    requires
        wallet.consistent(),
    ensures
        Bls::signing_result(wallet, message) matches Ok(s) && s@ == bls_sign(
            wallet.secret_key()@,
            sha256_digest(bls_sk_to_pk(wallet.secret_key()@)@)@ + message,
            DST@,
            Seq::empty(),
        )@,
{
}

/// Verifying with `Bls` gives whether `blst`'s check of the signature (with the
/// group check) succeeds for the one message made of the wallet's address
/// followed by the message, under `DST` and the wallet's public key; the
/// address is the SHA-256 digest of that public key.
pub proof fn lemma_bls_verifying_result(wallet: PublicWallet, message: Seq<u8>, signature: Signature)
    ensures
        Bls::verifying_result(wallet, message, signature) == Ok::<bool, Error>(
            bls_aggregate_verify(
                signature@,
                true,
                seq![wallet.public_key_hash()@ + message],
                DST@,
                seq![wallet.public_key()@],
                false,
            ) == 0,
        ),
        wallet.consistent() ==> Bls::verifying_result(wallet, message, signature) == Ok::<bool, Error>(
            bls_aggregate_verify(
                signature@,
                true,
                seq![sha256_digest(wallet.public_key()@)@ + message],
                DST@,
                seq![wallet.public_key()@],
                false,
            ) == 0,
        ),
{
}

/// Aggregating with `Bls` is `blst`'s aggregation of the compressed bytes of
/// every given signature, in order and without group checks.
pub proof fn lemma_bls_aggregation_result(signatures: Seq<Signature>)
    ensures
        Bls::aggregation_result(signatures) == match bls_aggregate_serialized(
            Seq::new(signatures.len(), |i: int| signatures[i]@),
            false,
        ) {
            Ok(b) => Ok::<AggregateSignature, Error>(AggregateSignature::of_bytes(b)),
            Err(c) => Err::<AggregateSignature, Error>(Error::SignatureAggregationFailed(blst_error_of(c))),
        },
{
    assert(signature_bytes(signatures) =~= Seq::new(signatures.len(), |i: int| signatures[i]@));
}

/// An aggregate signature verifies with `Bls` exactly when `blst`'s aggregate
/// check (with the group check) succeeds for every pair: the message of each
/// pair prefixed with its wallet's address, under that wallet's public key.
pub proof fn lemma_bls_aggregate_verification(
    messages_with_pks: Seq<(Seq<u8>, PublicWallet)>,
    aggregate_signature: AggregateSignature,
)
    ensures
        Bls::aggregate_verification(messages_with_pks, aggregate_signature) == (bls_aggregate_verify(
            aggregate_signature@,
            true,
            Seq::new(
                messages_with_pks.len(),
                |i: int| messages_with_pks[i].1.public_key_hash()@ + messages_with_pks[i].0,
            ),
            DST@,
            Seq::new(messages_with_pks.len(), |i: int| messages_with_pks[i].1.public_key()@),
            false,
        ) == 0),
{
    assert(signed_messages(messages_with_pks) =~= Seq::new(
        messages_with_pks.len(),
        |i: int| messages_with_pks[i].1.public_key_hash()@ + messages_with_pks[i].0,
    ));
    assert(signer_keys(messages_with_pks) =~= Seq::new(
        messages_with_pks.len(),
        |i: int| messages_with_pks[i].1.public_key()@,
    ));
}

/// An aggregate of one pair verifies exactly when a signature with the same
/// bytes verifies for that message and wallet.
pub proof fn lemma_bls_aggregate_of_one(
    message: Seq<u8>,
    wallet: PublicWallet,
    signature: Signature,
    aggregate_signature: AggregateSignature,
)
    requires
        signature@ == aggregate_signature@,
    ensures
        Bls::aggregate_verification(seq![(message, wallet)], aggregate_signature) <==> Bls::verifying_result(
            wallet,
            message,
            signature,
        ) == Ok::<bool, Error>(true),
{
    assert(signed_messages(seq![(message, wallet)]) =~= seq![prefixed_message(wallet.public_key_hash()@, message)]);
    assert(signer_keys(seq![(message, wallet)]) =~= seq![wallet.public_key()@]);
}

} // verus!
