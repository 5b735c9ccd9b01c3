use crypto_sign::bls::{
    AggregateSignature, BlstError, Bls, Error, PublicKey, PublicWallet, SecretKey, SecretWallet,
    Signature, DST, SIGNATURE_BYTES,
};
use crypto_sign::crypto::{Address, AggregateSigner, KeyPair, Signer, SignerBuf};
use crypto_sign::encode::{DecodeError, Encodable, Ssz};
use sha2::Digest;

const G1_GENERATOR: &str = "97f1d3a73197d7942695638c4fa9ac0fc3688c4f9774b905a14e3a3f171bac586c55e83ff97a1aeffb3af00adb22c6bb";

fn wallet(seed: u8) -> SecretWallet {
    SecretKey::key_gen(&[seed; 32], &[]).unwrap().into()
}

fn scalar(value: u8) -> [u8; 32] {
    let mut bytes = [0u8; 32];
    bytes[31] = value;
    bytes
}

fn group_order() -> [u8; 32] {
    let hex_text = "73eda753299d7d483339d80809a1d80553bda402fffe5bfeffffffff00000001";
    let mut bytes = [0u8; 32];
    bytes.copy_from_slice(&hex::decode(hex_text).unwrap());
    bytes
}

fn ssz_bytes(signature: &Signature) -> Vec<u8> {
    let mut buf = Vec::new();
    signature.ssz_append(&mut buf);
    buf
}

#[test]
fn secret_key_zero_is_refused() {
    let r = SecretKey::from_bytes(&[0u8; 32]);
    assert!(matches!(r, Err(Error::InvalidSecretKey(BlstError::BadEncoding))));
}

#[test]
fn secret_key_group_order_is_refused() {
    let r = SecretKey::from_bytes(&group_order());
    assert!(matches!(r, Err(Error::InvalidSecretKey(BlstError::BadEncoding))));
}

#[test]
fn secret_key_below_group_order_is_accepted() {
    let mut bytes = group_order();
    bytes[31] -= 1;
    assert!(SecretKey::from_bytes(&bytes).is_ok());
    assert!(SecretKey::from_bytes(&scalar(1)).is_ok());
}

#[test]
fn secret_key_one_has_the_generator_as_public_key() {
    let secret_key = SecretKey::from_bytes(&scalar(1)).unwrap();
    let public_key = secret_key.to_public_key();
    assert_eq!(public_key.to_string(), format!("0x{}", G1_GENERATOR));
}

#[test]
fn public_key_of_generator_bytes_is_accepted() {
    let mut bytes = [0u8; 48];
    bytes.copy_from_slice(&hex::decode(G1_GENERATOR).unwrap());
    let public_key = PublicKey::from_bytes(&bytes).unwrap();
    assert_eq!(public_key.to_string(), format!("0x{}", G1_GENERATOR));
}

#[test]
fn public_key_errors() {
    // Without the compression flag the 48 bytes are no encoding at all.
    let r = PublicKey::from_bytes(&[0u8; 48]);
    assert!(matches!(r, Err(Error::InvalidPublicKey(BlstError::BadEncoding))));
    // The compressed point at infinity decodes but is no valid key.
    let mut infinity = [0u8; 48];
    infinity[0] = 0xc0;
    let r = PublicKey::from_bytes(&infinity);
    assert!(matches!(r, Err(Error::InvalidPublicKey(BlstError::PkIsInfinity))));
}

#[test]
fn address_is_sha256_of_compressed_public_key() {
    let mut bytes = [0u8; 48];
    bytes.copy_from_slice(&hex::decode(G1_GENERATOR).unwrap());
    let public_wallet = PublicWallet::from(PublicKey::from_bytes(&bytes).unwrap());
    let expected = format!("0x{}", hex::encode(sha2::Sha256::digest(bytes)));
    assert_eq!(Bls::address(&public_wallet).to_string(), expected);

    let secret_wallet: SecretWallet = SecretKey::from_bytes(&scalar(1)).unwrap().into();
    assert_eq!(Bls::to_public_key_hash(&secret_wallet).to_string(), expected);
    let derived = Bls::to_public_key(&secret_wallet);
    assert_eq!(Bls::address(&derived).to_string(), expected);
}

#[test]
fn dst_is_the_pop_ciphersuite() {
    assert_eq!(&DST[..], b"BLS_SIG_BLS12381G2_XMD:SHA-256_SSWU_RO_POP_");
}

#[test]
fn signature_decoding_errors() {
    let r = Signature::from_bytes(&[0u8; 96]);
    assert!(matches!(r, Err(Error::InvalidSignature(BlstError::BadEncoding))));
    let r = AggregateSignature::from_bytes(&[0u8; 96]);
    assert!(matches!(r, Err(Error::InvalidSignature(BlstError::BadEncoding))));
}

#[test]
fn bytes_without_the_compression_flag_are_a_bad_encoding() {
    let r = PublicKey::from_bytes(&[0x7fu8; 48]);
    assert!(matches!(r, Err(Error::InvalidPublicKey(BlstError::BadEncoding))));
    let r = Signature::from_bytes(&[0x7fu8; 96]);
    assert!(matches!(r, Err(Error::InvalidSignature(BlstError::BadEncoding))));
    let r = AggregateSignature::from_bytes(&[0x7fu8; 96]);
    assert!(matches!(r, Err(Error::InvalidSignature(BlstError::BadEncoding))));
    match AggregateSignature::from_ssz_bytes(&[0x7fu8; 96]) {
        Err(DecodeError::BytesInvalid(text)) => assert_eq!(text, "BLST_BAD_ENCODING"),
        _ => panic!("expected invalid bytes"),
    }
}

#[test]
fn ssz_decoding_errors() {
    match Signature::from_ssz_bytes(&[0u8; 95]) {
        Err(DecodeError::InvalidByteLength { len, expected }) => {
            assert_eq!(len, 95);
            assert_eq!(expected, 96);
        }
        _ => panic!("expected an invalid length"),
    }
    match Signature::from_ssz_bytes(&[0u8; 96]) {
        Err(DecodeError::BytesInvalid(text)) => assert_eq!(text, "BLST_BAD_ENCODING"),
        _ => panic!("expected invalid bytes"),
    }
    match AggregateSignature::from_ssz_bytes(&[0u8; 97]) {
        Err(DecodeError::InvalidByteLength { len, expected }) => {
            assert_eq!(len, 97);
            assert_eq!(expected, 96);
        }
        _ => panic!("expected an invalid length"),
    }
}

#[test]
fn ssz_lengths() {
    assert!(Signature::is_ssz_fixed_len());
    assert_eq!(Signature::ssz_fixed_len(), SIGNATURE_BYTES);
    assert!(AggregateSignature::is_ssz_fixed_len());
    assert_eq!(AggregateSignature::ssz_fixed_len(), 96);
}

#[test]
fn ssz_round_trip_of_a_signature() {
    let secret_wallet = wallet(1);
    let signature = Bls::sign(&secret_wallet, b"Hello, world!").unwrap();
    let encoded = ssz_bytes(&signature);
    assert_eq!(encoded.len(), 96);
    assert_eq!(signature.ssz_bytes_len(), 96);
    assert_eq!(<Signature as Encodable<Ssz>>::encode(&signature), encoded);
    let decoded = Signature::from_ssz_bytes(&encoded).unwrap();
    assert_eq!(ssz_bytes(&decoded), encoded);
    let mut prefix = vec![7u8];
    signature.ssz_append(&mut prefix);
    assert_eq!(prefix[0], 7);
    assert_eq!(&prefix[1..], &encoded[..]);
}

#[test]
fn sign_agrees_with_sign_no_alloc() {
    let secret_wallet = wallet(3);
    let message = b"a message to sign";
    let mut buf = [0u8; 64];
    let allocated = Bls::sign(&secret_wallet, message).unwrap();
    let buffered = Bls::sign_no_alloc(&secret_wallet, message, &mut buf).unwrap();
    assert_eq!(ssz_bytes(&allocated), ssz_bytes(&buffered));
}

#[test]
fn sign_no_alloc_writes_address_then_message() {
    let secret_wallet = wallet(4);
    let message = b"Hello, world!";
    let mut buf = [0xffu8; 50];
    Bls::sign_no_alloc(&secret_wallet, message, &mut buf).unwrap();
    let address = Bls::to_public_key_hash(&secret_wallet).to_string();
    assert_eq!(format!("0x{}", hex::encode(&buf[0..32])), address);
    assert_eq!(&buf[32..45], message);
    assert_eq!(&buf[45..], &[0xffu8; 5]);
}

#[test]
fn message_too_long_reports_lengths() {
    let secret_wallet = wallet(1);
    let public_wallet = Bls::to_public_key(&secret_wallet);
    let signature = Bls::sign(&secret_wallet, b"Hello, world!").unwrap();
    let mut buf = [9u8; 30];
    let r = Bls::sign_no_alloc(&secret_wallet, b"Hello, world!", &mut buf);
    assert_eq!(r.err(), Some(Error::MessageTooLong { expected: 45, actual: 30 }));
    assert_eq!(buf, [9u8; 30]);
    let r = Bls::verify_no_alloc(&public_wallet, b"Hello, world!", &signature, &mut buf);
    assert_eq!(r, Err(Error::MessageTooLong { expected: 45, actual: 30 }));
}

#[test]
fn allocating_verify() {
    let secret_wallet = wallet(5);
    let public_wallet = Bls::to_public_key(&secret_wallet);
    let signature = Bls::sign(&secret_wallet, b"pay 10").unwrap();
    assert_eq!(Bls::verify(&public_wallet, b"pay 10", &signature), Ok(true));
    assert_eq!(Bls::verify(&public_wallet, b"pay 11", &signature), Ok(false));
    let other = Bls::to_public_key(&wallet(6));
    assert_eq!(Bls::verify(&other, b"pay 10", &signature), Ok(false));
}

#[test]
fn from_public_key_agrees_with_to_public_key() {
    let secret_key = SecretKey::from_bytes(&scalar(9)).unwrap();
    let public_key = secret_key.to_public_key();
    let secret_wallet: SecretWallet = secret_key.clone().into();
    let derived = Bls::to_public_key(&secret_wallet);
    let made = PublicWallet::from(public_key);
    assert_eq!(Bls::address(&derived).to_string(), Bls::address(&made).to_string());
    let signature = Bls::sign(&secret_wallet, b"m").unwrap();
    assert_eq!(Bls::verify(&made, b"m", &signature), Ok(true));
}

#[test]
fn aggregate_of_nothing_fails() {
    let r = Bls::aggregate_signatures(&[]);
    assert!(matches!(
        r,
        Err(Error::SignatureAggregationFailed(BlstError::AggrTypeMismatch))
    ));
}

#[test]
fn aggregate_verification_of_nothing_is_false() {
    let secret_wallet = wallet(1);
    let signature = Bls::sign(&secret_wallet, b"x").unwrap();
    let aggregate = Bls::aggregate_signatures(&[signature]).unwrap();
    assert!(!Bls::verify_aggregate_signature(&[], &aggregate));
}

#[test]
fn aggregate_of_one_signature_is_that_signature() {
    let secret_wallet = wallet(2);
    let public_wallet = Bls::to_public_key(&secret_wallet);
    let signature = Bls::sign(&secret_wallet, b"single").unwrap();
    let encoded = ssz_bytes(&signature);
    let aggregate = Bls::aggregate_signatures(&[signature]).unwrap();
    let mut aggregate_bytes = Vec::new();
    aggregate.ssz_append(&mut aggregate_bytes);
    assert_eq!(aggregate_bytes, encoded);
    let mut array = [0u8; 96];
    array.copy_from_slice(&encoded);
    let read = AggregateSignature::from_bytes(&array).unwrap();
    assert!(Bls::verify_aggregate_signature(&[(b"single".as_slice(), &public_wallet)], &read));
    let decoded = AggregateSignature::from_ssz_bytes(&encoded).unwrap();
    assert!(Bls::verify_aggregate_signature(&[(b"single".as_slice(), &public_wallet)], &decoded));
}

#[test]
fn blst_error_names() {
    assert_eq!(BlstError::Success.name(), "BLST_SUCCESS");
    assert_eq!(BlstError::VerifyFail.name(), "BLST_VERIFY_FAIL");
    assert_eq!(BlstError::from_code(4), BlstError::AggrTypeMismatch);
    assert_eq!(BlstError::from_code(7), BlstError::BadScalar);
}

#[test]
fn key_gen_and_sign_match_blst() {
    let ikm = [1u8; 32];
    let raw = blst::min_pk::SecretKey::key_gen(&ikm, &[]).unwrap();
    let raw_public = raw.sk_to_pk().to_bytes();

    let secret_key = SecretKey::key_gen(&ikm, &[]).unwrap();
    assert_eq!(secret_key.to_public_key().to_string(), format!("0x{}", hex::encode(raw_public)));

    let secret_wallet: SecretWallet = secret_key.into();
    let message = b"Hello, world!";
    let mut signed = sha2::Sha256::digest(raw_public).to_vec();
    signed.extend_from_slice(message);
    let raw_signature = raw.sign(&signed, &DST, &[]).to_bytes();
    let signature = Bls::sign(&secret_wallet, message).unwrap();
    assert_eq!(ssz_bytes(&signature), raw_signature.to_vec());
}

#[test]
fn aggregation_does_not_depend_on_order() {
    let first = Bls::sign(&wallet(1), b"one").unwrap();
    let second = Bls::sign(&wallet(2), b"two").unwrap();
    let encoded_first = ssz_bytes(&first);
    let encoded_second = ssz_bytes(&second);
    let forward = Bls::aggregate_signatures(&[first, second]).unwrap();
    let backward = Bls::aggregate_signatures(&[
        Signature::from_ssz_bytes(&encoded_second).unwrap(),
        Signature::from_ssz_bytes(&encoded_first).unwrap(),
    ])
    .unwrap();
    let mut a = Vec::new();
    forward.ssz_append(&mut a);
    let mut b = Vec::new();
    backward.ssz_append(&mut b);
    assert_eq!(a, b);
}
