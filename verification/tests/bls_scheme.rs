use crypto_sign::bls::{Bls, Error, SecretKey, SecretWallet};
use crypto_sign::crypto::{AggregateSigner, KeyPair, Signable, SignableExt, SignerBuf};
use crypto_sign::encode::{Encodable, Ssz};
use ssz::Encode;

#[test]
fn test_sign_verify() {
    // 45 bytes are enough for the public key hash and the message
    let mut buf = [0u8; 45];
    let ikm = [1u8; 32];
    let secret_key: SecretWallet = SecretKey::key_gen(&ikm, &[]).unwrap().into();
    let public_key = Bls::to_public_key(&secret_key);
    let message = b"Hello, world!";

    let signature = Bls::sign_no_alloc(&secret_key, message, &mut buf).unwrap();
    assert!(Bls::verify_no_alloc(&public_key, message, &signature, &mut buf).unwrap());
}

#[test]
fn test_sign_fails_message_too_long() {
    // 30 bytes are not enough for the public key hash and the message
    let mut buf = [0u8; 30];
    let ikm = [1u8; 32];
    let secret_key: SecretWallet = SecretKey::key_gen(&ikm, &[]).unwrap().into();
    let message = b"Hello, world!";

    let signature = Bls::sign_no_alloc(&secret_key, message, &mut buf);
    assert!(matches!(signature, Err(Error::MessageTooLong { .. })));
}

#[test]
fn test_sign_verify_wrong_message_fails() {
    let mut buf = [0u8; 47];

    let ikm = [1u8; 32];
    let secret_key: SecretWallet = SecretKey::key_gen(&ikm, &[]).unwrap().into();
    let public_key = Bls::to_public_key(&secret_key);
    let message = b"Hello, world!";
    let wrong_message = b"Goodbye, world!";
    let signature = Bls::sign_no_alloc(&secret_key, wrong_message, &mut buf).unwrap();
    assert!(!Bls::verify_no_alloc(&public_key, message, &signature, &mut buf).unwrap());
}

#[test]
fn test_sign_verify_wrong_signature_fails() {
    let mut buf = [0u8; 45];
    let ikm = [1u8; 32];
    let secret_key: SecretWallet = SecretKey::key_gen(&ikm, &[]).unwrap().into();
    let public_key = Bls::to_public_key(&secret_key);
    let wrong_secret_key: SecretWallet = SecretKey::key_gen(&[2u8; 32], &[]).unwrap().into();

    let message = b"Hello, world!";
    let wrong_signature = Bls::sign_no_alloc(&wrong_secret_key, message, &mut buf).unwrap();
    assert!(!Bls::verify_no_alloc(&public_key, message, &wrong_signature, &mut buf).unwrap());
}

#[test]
fn test_aggregate_signatures() {
    let mut buf = [0u8; 45];
    let ikm1 = [1u8; 32];
    let ikm2 = [2u8; 32];
    let secret_key1: SecretWallet = SecretKey::key_gen(&ikm1, &[]).unwrap().into();
    let secret_key2: SecretWallet = SecretKey::key_gen(&ikm2, &[]).unwrap().into();
    let public_key1 = Bls::to_public_key(&secret_key1);
    let public_key2 = Bls::to_public_key(&secret_key2);
    let message = b"Hello, world!";
    let signature1 = Bls::sign_no_alloc(&secret_key1, message, &mut buf).unwrap();
    let signature2 = Bls::sign_no_alloc(&secret_key2, message, &mut buf).unwrap();

    let aggregate_signature = Bls::aggregate_signatures(&[signature1, signature2]).unwrap();
    assert!(Bls::verify_aggregate_signature(
        &[(message.as_slice(), &public_key1), (message.as_slice(), &public_key2)],
        &aggregate_signature
    ));
}

#[test]
fn test_aggregate_signatures_swap_pks_fails() {
    let mut buf = [0u8; 100];
    let ikm1 = [1u8; 32];
    let ikm2 = [2u8; 32];
    let secret_key1: SecretWallet = SecretKey::key_gen(&ikm1, &[]).unwrap().into();
    let secret_key2: SecretWallet = SecretKey::key_gen(&ikm2, &[]).unwrap().into();
    let public_key1 = Bls::to_public_key(&secret_key1);
    let public_key2 = Bls::to_public_key(&secret_key2);
    let message1 = b"Hello, world!";
    let message2 = b"Goodbye, world!";
    let signature1 = Bls::sign_no_alloc(&secret_key1, message1, &mut buf).unwrap();
    let signature2 = Bls::sign_no_alloc(&secret_key2, message2, &mut buf).unwrap();

    let aggregate_signature = Bls::aggregate_signatures(&[signature1, signature2]).unwrap();
    assert!(!Bls::verify_aggregate_signature(
        &[
            (message1.as_slice(), &public_key2),
            (message2.as_slice(), &public_key1)
        ],
        &aggregate_signature
    ));
}

struct TestSignable {
    message: Vec<u8>,
    sender: u64,
}

impl ssz::Encode for TestSignable {
    fn is_ssz_fixed_len() -> bool {
        false
    }

    fn ssz_bytes_len(&self) -> usize {
        4 + 8 + self.message.len()
    }

    fn ssz_append(&self, buf: &mut Vec<u8>) {
        let mut encoder = ssz::SszEncoder::container(buf, 4 + 8);
        encoder.append(&self.message);
        encoder.append(&self.sender);
        encoder.finalize();
    }
}

impl Encodable<Ssz> for TestSignable {
    fn encode(&self) -> Vec<u8> {
        self.as_ssz_bytes()
    }
}

impl From<&[u8]> for TestSignable {
    fn from(message: &[u8]) -> Self {
        TestSignable {
            message: message.to_vec(),
            sender: 0,
        }
    }
}

impl Signable for TestSignable {}

#[test]
fn verify_signable() {
    let ikm = [1u8; 32];
    let secret_key: SecretWallet = SecretKey::key_gen(&ikm, &[]).unwrap().into();
    let public_key = Bls::to_public_key(&secret_key);
    let message = b"Hello, world!";
    let signable = TestSignable::from(message.as_slice());
    let signature = signable.sign::<Bls, Ssz>(&secret_key).unwrap();
    assert!(
        signable
            .verify::<Bls, Ssz>(&public_key, &signature)
            .unwrap()
    );
}
