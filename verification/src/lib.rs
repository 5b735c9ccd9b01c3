pub mod bls;
pub mod blst_ops;
pub mod crypto;
pub mod dalek_ops;
pub mod digest;
pub mod ed25519;
pub mod encode;
