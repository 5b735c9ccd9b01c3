use vstd::prelude::*;
use sha2::Digest;

verus! {

/// The SHA-256 digest of `data`, as computed by the `sha2` crate.
pub uninterp spec fn sha256_digest(data: Seq<u8>) -> [u8; 32];

/// Calls `sha2::Sha256::digest`: the 32-byte SHA-256 digest of `data`.
/// The contract only names the result; the digest itself is not modelled.
#[verifier::external_body]
pub(crate) fn sha256(data: &[u8]) -> (digest: [u8; 32])
    ensures
        digest == sha256_digest(data@),
{
    sha2::Sha256::digest(data).into()
}

/// The lowercase hexadecimal digit for a value below 16.
pub open spec fn hex_digit(v: int) -> char {
    if v < 10 {
        ((v + 48) as u8) as char
    } else {
        ((v + 87) as u8) as char
    }
}

/// Lowercase hexadecimal text of `data`: two digits per byte, high nibble first.
pub open spec fn hex_lower(data: Seq<u8>) -> Seq<char>
    decreases data.len(),
{
    if data.len() == 0 {
        Seq::empty()
    } else {
        hex_lower(data.drop_last()) + seq![
            hex_digit(data.last() as int / 16),
            hex_digit(data.last() as int % 16),
        ]
    }
}

/// Calls `hex::encode`, which writes each byte as two lowercase hexadecimal
/// digits, high nibble first (table `0123456789abcdef`).
#[verifier::external_body]
pub(crate) fn hex_encode(data: &[u8]) -> (text: String)
    ensures
        text@ == hex_lower(data@),
{
    hex::encode(data)
}

/// `"0x"` followed by the lowercase hexadecimal text of `data`.
pub open spec fn prefixed_hex(data: Seq<u8>) -> Seq<char> {
    seq!['0', 'x'] + hex_lower(data)
}

/// The text `0x` followed by the lowercase hexadecimal digits of `data`.
pub(crate) fn to_prefixed_hex(data: &[u8]) -> (text: String)
    ensures
        text@ == prefixed_hex(data@),
{
    let mut text = String::from_str("0x");
    proof {
        reveal_strlit("0x");
    }
    let digits = hex_encode(data);
    text.append(digits.as_str());
    text
}

} // verus!
