use vstd::prelude::*;

verus! {

/// A byte encoding that values can be signed under.
pub trait Encoder {}

/// A value that has a byte encoding under the encoder `E`; what `encode`
/// returns is up to each implementation.
pub trait Encodable<E: Encoder> {
    fn encode(&self) -> Vec<u8>;
}

/// The SSZ encoding (Simple Serialize).
pub struct Ssz;

impl Encoder for Ssz {}

/// Why SSZ bytes cannot be decoded (the cases of `ssz::DecodeError` met here).
#[derive(Debug, Clone)]
pub enum DecodeError {
    /// The bytes do not have the length that the type has.
    InvalidByteLength { len: usize, expected: usize },
    /// The bytes are invalid for the type; the text says why.
    BytesInvalid(String),
}

/// Calls `ssz::SszEncoder::container`, `append` and `finalize` to encode a container
/// whose one fixed-length field is the byte array `field`; for such a field the
/// source appends its bytes to `buf`, and there are no variable bytes to append.
#[verifier::external_body]
pub(crate) fn ssz_append_fixed_container<const N: usize>(buf: &mut Vec<u8>, num_fixed_bytes: usize, field: &[u8; N])
    ensures
        final(buf)@ == old(buf)@ + field@,
{
    let mut encoder = ssz::SszEncoder::container(buf, num_fixed_bytes);
    encoder.append(field);
    encoder.finalize();
}

} // verus!
