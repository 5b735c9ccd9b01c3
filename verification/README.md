# crypto_sign

Signature schemes behind one set of traits (`KeyPair`, `Address`, `Signer`,
`SignerBuf`, `AggregateSigner`, `SignableExt`), verified with Verus.

- `src/crypto.rs`: the traits and their contracts over spec functions.
- `src/bls.rs`: BLS signatures (public keys in G1) where each signed message is
  prefixed with the signer's address (SHA-256 of the compressed public key); SSZ
  encoding of signatures.
- `src/ed25519.rs`: Ed25519 signatures.
- `src/encode.rs`: encoders (`Ssz`) and SSZ decoding errors.
- `src/blst_ops.rs`, `src/dalek_ops.rs`, `src/digest.rs`: the calls into `blst`,
  `ed25519-dalek`, `sha2`, `hex` and `ssz`, each with the contract that the rest of
  the library is proved against.
- `app/lib.rs`: impls of outside traits (`ssz::Encode`/`Decode`, `Display`,
  `thiserror::Error`) on copies of the library's types.
