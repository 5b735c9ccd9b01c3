use vstd::prelude::*;
use blst::min_pk;

verus! {

/// Big-endian value of a byte string.
pub open spec fn be_value(bytes: Seq<u8>) -> nat
    decreases bytes.len(),
{
    if bytes.len() == 0 {
        0
    } else {
        be_value(bytes.drop_last()) * 256 + bytes.last() as nat
    }
}

/// The order `r` of the BLS12-381 groups, the modulus of secret scalars.
pub open spec fn bls12_381_r() -> nat {
    0x73eda753299d7d483339d80809a1d80553bda402fffe5bfeffffffff00000001nat
}

/// A secret key's 32 big-endian bytes hold a scalar `s` with `0 < s < r`
/// (the check `blst_sk_check` makes).
pub open spec fn secret_scalar_valid(bytes: Seq<u8>) -> bool {
    &&& bytes.len() == 32
    &&& 0 < be_value(bytes)
    &&& be_value(bytes) < bls12_381_r()
}

/// The code of `BLST_ERROR::BLST_BAD_ENCODING`.
pub open spec fn bad_encoding_code() -> u32 {
    1
}

/// The code of `BLST_ERROR::BLST_AGGR_TYPE_MISMATCH`.
pub open spec fn aggr_type_mismatch_code() -> u32 {
    4
}

/// A successful array result.
pub open spec fn ok_array<const N: usize>(a: [u8; N]) -> Result<[u8; N], u32> {
    Ok(a)
}

/// A failed array result with `BLST_ERROR` code `e`.
pub open spec fn err_array<const N: usize>(e: u32) -> Result<[u8; N], u32> {
    Err(e)
}

/// An error code of `BLST_ERROR` other than `BLST_SUCCESS`.
pub open spec fn failure_code(e: u32) -> bool {
    1 <= e <= 7
}

/// `blst` key generation (`SecretKey::key_gen`, the IETF KeyGen of version 4):
/// the 32 big-endian bytes of the scalar derived from `ikm` and `key_info`.
pub uninterp spec fn bls_key_gen(ikm: Seq<u8>, key_info: Seq<u8>) -> [u8; 32];

/// `blst` public key of a secret scalar (`sk_to_pk`), as compressed bytes.
pub uninterp spec fn bls_sk_to_pk(secret: Seq<u8>) -> [u8; 48];

/// `blst` signature (`SecretKey::sign`) by the secret scalar `secret` of `msg`
/// with domain separation tag `dst` and augmentation `aug`, as compressed bytes.
pub uninterp spec fn bls_sign(secret: Seq<u8>, msg: Seq<u8>, dst: Seq<u8>, aug: Seq<u8>) -> [u8; 96];

/// `blst` public key validation (`PublicKey::key_validate`): the compressed
/// bytes of the validated key, or the `BLST_ERROR` code of the failure.
pub uninterp spec fn bls_key_validate(bytes: Seq<u8>) -> Result<[u8; 48], u32>;

/// `blst` signature decoding (`Signature::from_bytes`): the compressed bytes of
/// the decoded point, or the `BLST_ERROR` code of the failure.
pub uninterp spec fn bls_signature_from_bytes(bytes: Seq<u8>) -> Result<[u8; 96], u32>;

/// `blst` aggregation of serialized signatures (`AggregateSignature::aggregate_serialized`),
/// as the compressed bytes of `to_signature()`, or the `BLST_ERROR` code of the failure.
pub uninterp spec fn bls_aggregate_serialized(signatures: Seq<Seq<u8>>, sigs_groupcheck: bool) -> Result<[u8; 96], u32>;

/// `blst` aggregate verification (`Signature::aggregate_verify`) on decoded inputs,
/// as the `BLST_ERROR` code it returns (or the code of a decoding failure).
pub uninterp spec fn bls_aggregate_verify(
    signature: Seq<u8>,
    sig_groupcheck: bool,
    msgs: Seq<Seq<u8>>,
    dst: Seq<u8>,
    public_keys: Seq<Seq<u8>>,
    pks_validate: bool,
) -> u32;

/// The signatures by each secret scalar of the message at the same index,
/// with domain separation tag `dst` and no augmentation.
pub open spec fn signatures_by(secrets: Seq<Seq<u8>>, msgs: Seq<Seq<u8>>, dst: Seq<u8>) -> Seq<Seq<u8>> {
    Seq::new(secrets.len(), |i: int| bls_sign(secrets[i], msgs[i], dst, Seq::empty())@)
}

/// The bytes of each vector.
pub open spec fn byte_vecs(vecs: Seq<Vec<u8>>) -> Seq<Seq<u8>> {
    vecs.map_values(|m: Vec<u8>| m@)
}

/// The public key of each secret scalar.
pub open spec fn public_keys_of(secrets: Seq<Seq<u8>>) -> Seq<Seq<u8>> {
    secrets.map_values(|s: Seq<u8>| bls_sk_to_pk(s)@)
}

/// Calls `min_pk::SecretKey::from_bytes` and serializes the key back with `to_bytes`.
/// The source reads the 32 bytes as a big-endian scalar and accepts it exactly
/// when `blst_sk_check` holds (`0 < s < r`), else returns `BLST_BAD_ENCODING`;
/// `to_bytes` writes the same scalar back in big-endian order.
#[verifier::external_body]
pub(crate) fn blst_secret_key_from_bytes(bytes: &[u8; 32]) -> (r: Result<[u8; 32], u32>)
    ensures
        secret_scalar_valid(bytes@) ==> r == ok_array(*bytes),
        !secret_scalar_valid(bytes@) ==> r == err_array::<32>(bad_encoding_code()),
{
    match min_pk::SecretKey::from_bytes(bytes) {
        Ok(sk) => Ok(sk.to_bytes()),
        Err(e) => Err(e as u32),
    }
}

/// Calls `min_pk::SecretKey::key_gen` and serializes the key with `to_bytes`.
/// With 32 bytes of `ikm` the source always succeeds; its KeyGen loop repeats
/// until the scalar is nonzero and reduces it modulo `r`, so the key is valid.
#[verifier::external_body]
pub(crate) fn blst_key_gen(ikm: &[u8; 32], key_info: &[u8]) -> (r: Result<[u8; 32], u32>)
    ensures
        r == ok_array(bls_key_gen(ikm@, key_info@)),
        r matches Ok(k) ==> secret_scalar_valid(k@),
{
    match min_pk::SecretKey::key_gen(ikm, key_info) {
        Ok(sk) => Ok(sk.to_bytes()),
        Err(e) => Err(e as u32),
    }
}

/// Calls `min_pk::SecretKey::sk_to_pk` on the key decoded from `secret` and
/// compresses the public key (`to_bytes`). The key of a nonzero scalar is a
/// point of the group other than infinity, and compressed points decode back
/// (`blst`'s `test_serialization`), so `PublicKey::key_validate` accepts the
/// bytes and gives them back.
#[verifier::external_body]
pub(crate) fn blst_sk_to_pk(secret: &[u8; 32]) -> (public_key: [u8; 48])
    requires
        secret_scalar_valid(secret@),
    ensures
        public_key == bls_sk_to_pk(secret@),
        bls_key_validate(public_key@) == ok_array(public_key),
{
    min_pk::SecretKey::from_bytes(secret).unwrap().sk_to_pk().to_bytes()
}

/// Calls `min_pk::SecretKey::sign` with the key decoded from `secret`
/// and compresses the signature (`to_bytes`). A compressed point decodes back
/// to the same point (`blst`'s `test_serialization` shows the round trip), so
/// `Signature::from_bytes` gives back the same bytes.
#[verifier::external_body]
pub(crate) fn blst_sign(secret: &[u8; 32], msg: &[u8], dst: &[u8], aug: &[u8]) -> (signature: [u8; 96])
    requires
        secret_scalar_valid(secret@),
    ensures
        signature == bls_sign(secret@, msg@, dst@, aug@),
        bls_signature_from_bytes(signature@) == ok_array(signature),
{
    min_pk::SecretKey::from_bytes(secret).unwrap().sign(msg, dst, aug).to_bytes()
}

/// Calls `min_pk::PublicKey::key_validate` and compresses the key (`to_bytes`).
/// Every error the source returns is a failure code of `BLST_ERROR`; 48 bytes
/// whose first byte lacks the compression flag `0x80` are refused by
/// `PublicKey::deserialize` with `BLST_BAD_ENCODING`.
#[verifier::external_body]
pub(crate) fn blst_key_validate(bytes: &[u8; 48]) -> (r: Result<[u8; 48], u32>)
    ensures
        r == bls_key_validate(bytes@),
        bytes@[0] < 128 ==> r == err_array::<48>(bad_encoding_code()),
        r matches Err(e) ==> failure_code(e),
{
    match min_pk::PublicKey::key_validate(bytes) {
        Ok(pk) => Ok(pk.to_bytes()),
        Err(e) => Err(e as u32),
    }
}

/// Calls `min_pk::Signature::from_bytes` and compresses the signature (`to_bytes`).
/// Every error the source returns is a failure code of `BLST_ERROR`; 96 bytes
/// whose first byte lacks the compression flag `0x80` are refused by
/// `Signature::deserialize` with `BLST_BAD_ENCODING`; the compressed bytes of a
/// decoded point decode back to themselves.
#[verifier::external_body]
pub(crate) fn blst_signature_from_bytes(bytes: &[u8; 96]) -> (r: Result<[u8; 96], u32>)
    ensures
        r == bls_signature_from_bytes(bytes@),
        bytes@[0] < 128 ==> r == err_array::<96>(bad_encoding_code()),
        r matches Err(e) ==> failure_code(e),
        r matches Ok(b) ==> bls_signature_from_bytes(b@) == ok_array(b),
{
    match min_pk::Signature::from_bytes(bytes) {
        Ok(sig) => Ok(sig.to_bytes()),
        Err(e) => Err(e as u32),
    }
}

/// Calls `min_pk::AggregateSignature::from_signature` on the signature decoded
/// from `bytes` (`Signature::from_bytes`), and compresses `to_signature()` of the
/// aggregate. `from_signature` turns the affine point into projective form and
/// `to_signature` turns it back, so the result is that of decoding alone.
#[verifier::external_body]
pub(crate) fn blst_aggregate_signature_from_bytes(bytes: &[u8; 96]) -> (r: Result<[u8; 96], u32>)
    ensures
        r == bls_signature_from_bytes(bytes@),
        bytes@[0] < 128 ==> r == err_array::<96>(bad_encoding_code()),
        r matches Err(e) ==> failure_code(e),
        r matches Ok(b) ==> bls_signature_from_bytes(b@) == ok_array(b),
{
    match min_pk::Signature::from_bytes(bytes) {
        Ok(sig) => Ok(min_pk::AggregateSignature::from_signature(&sig).to_signature().to_bytes()),
        Err(e) => Err(e as u32),
    }
}

/// Calls `min_pk::Signature::verify` on the signature and public key decoded
/// from their bytes, and returns the `BLST_ERROR` code (0 is `BLST_SUCCESS`).
/// The source's `verify` is `aggregate_verify` of the one message `aug ++ msg`
/// under the one key. As `blst`'s README and its `test_sign_n_verify` show, a
/// signature that `sign` made with a valid secret key verifies under the key's
/// `sk_to_pk`.
#[verifier::external_body]
pub(crate) fn blst_verify(
    signature: &[u8; 96],
    sig_groupcheck: bool,
    msg: &[u8],
    dst: &[u8],
    aug: &[u8],
    public_key: &[u8; 48],
    pk_validate: bool,
) -> (code: u32)
    ensures
        code == bls_aggregate_verify(
            signature@,
            sig_groupcheck,
            seq![aug@ + msg@],
            dst@,
            seq![public_key@],
            pk_validate,
        ),
        forall|secret: Seq<u8>|
            #![trigger bls_sign(secret, msg@, dst@, aug@)]
            secret_scalar_valid(secret) && *signature == bls_sign(secret, msg@, dst@, aug@) && *public_key
                == bls_sk_to_pk(secret) ==> code == 0,
{
    let sig = match min_pk::Signature::from_bytes(signature) { Ok(s) => s, Err(e) => return e as u32 };
    let pk = match min_pk::PublicKey::from_bytes(public_key) { Ok(p) => p, Err(e) => return e as u32 };
    sig.verify(sig_groupcheck, msg, dst, aug, &pk, pk_validate) as u32
}

/// Calls `min_pk::AggregateSignature::aggregate_serialized` and compresses
/// `to_signature()` of the aggregate. The source refuses an empty list with
/// `BLST_AGGR_TYPE_MISMATCH`. Without group checks each signature is only
/// decoded (`Signature::from_bytes`), so the call fails only where one does not
/// decode, and of one signature it gives that signature's point; with group
/// checks a decoded point outside G2 is refused, which is left unsaid here.
/// The compressed bytes of the aggregate decode back to themselves.
#[verifier::external_body]
pub(crate) fn blst_aggregate_serialized(signatures: &[[u8; 96]], sigs_groupcheck: bool) -> (r: Result<[u8; 96], u32>)
    ensures
        r == bls_aggregate_serialized(signatures@.map_values(|s: [u8; 96]| s@), sigs_groupcheck),
        signatures@.len() == 0 ==> r == err_array::<96>(aggr_type_mismatch_code()),
        !sigs_groupcheck && signatures@.len() > 0 && (forall|i: int|
            0 <= i < signatures@.len() ==> bls_signature_from_bytes((#[trigger] signatures@[i])@) is Ok) ==> r is Ok,
        !sigs_groupcheck && signatures@.len() == 1 ==> r == bls_signature_from_bytes(signatures@[0]@),
        r matches Err(e) ==> failure_code(e),
        r matches Ok(b) ==> bls_signature_from_bytes(b@) == ok_array(b),
{
    let sigs: Vec<&[u8]> = signatures.iter().map(|s| s.as_slice()).collect();
    match min_pk::AggregateSignature::aggregate_serialized(&sigs, sigs_groupcheck) {
        Ok(agg) => Ok(agg.to_signature().to_bytes()),
        Err(e) => Err(e as u32),
    }
}

/// Calls `min_pk::Signature::aggregate_verify` on the signature and the public keys
/// decoded from their bytes, and returns the `BLST_ERROR` code (0 is `BLST_SUCCESS`).
/// The source fails when there are no keys or the message count differs. As
/// `blst`'s `test_aggregate` shows, the aggregate of the signatures that `sign`
/// made of each message with valid secret keys verifies under their `sk_to_pk`.
#[verifier::external_body]
pub(crate) fn blst_aggregate_verify(
    signature: &[u8; 96],
    sig_groupcheck: bool,
    msgs: &[Vec<u8>],
    dst: &[u8],
    public_keys: &[[u8; 48]],
    pks_validate: bool,
) -> (code: u32)
    ensures
        code == bls_aggregate_verify(
            signature@,
            sig_groupcheck,
            byte_vecs(msgs@),
            dst@,
            public_keys@.map_values(|k: [u8; 48]| k@),
            pks_validate,
        ),
        (public_keys@.len() == 0 || msgs@.len() != public_keys@.len()) ==> code != 0,
        forall|secrets: Seq<Seq<u8>>|
            #![trigger signatures_by(secrets, byte_vecs(msgs@), dst@)]
            {
                &&& secrets.len() > 0
                &&& secrets.len() == msgs@.len()
                &&& (forall|i: int| 0 <= i < secrets.len() ==> secret_scalar_valid(#[trigger] secrets[i]))
                &&& public_keys@.map_values(|k: [u8; 48]| k@) == public_keys_of(secrets)
                &&& bls_aggregate_serialized(
                    signatures_by(secrets, byte_vecs(msgs@), dst@),
                    false,
                ) == ok_array(*signature)
            } ==> code == 0,
{
    let sig = match min_pk::Signature::from_bytes(signature) { Ok(s) => s, Err(e) => return e as u32 };
    let mut pks = Vec::new();
    for k in public_keys {
        match min_pk::PublicKey::from_bytes(k) { Ok(p) => pks.push(p), Err(e) => return e as u32 }
    }
    let pk_refs: Vec<&min_pk::PublicKey> = pks.iter().collect();
    let msg_refs: Vec<&[u8]> = msgs.iter().map(|m| m.as_slice()).collect();
    sig.aggregate_verify(sig_groupcheck, &msg_refs, dst, &pk_refs, pks_validate) as u32
}

} // verus!
