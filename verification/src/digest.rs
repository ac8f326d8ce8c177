//! SHA-256 digests rendered as lowercase hexadecimal.

use vstd::prelude::*;
use vstd::string::StringSliceAdditionalSpecFns;

verus! {

/// SHA-256 digest of `data` (32 bytes), as `sha2::Sha256` computes it.
pub uninterp spec fn spec_sha256(data: Seq<u8>) -> Seq<u8>;

/// Lowercase hexadecimal digit of `d < 16`.
pub open spec fn hex_digit(d: int) -> char {
    if d < 10 { (('0' as int) + d) as char } else { (('a' as int) + d - 10) as char }
}

/// Lowercase hexadecimal rendering of bytes, two digits per byte, high
/// nibble first, as `hex::encode` writes it.
pub open spec fn spec_hex(bytes: Seq<u8>) -> Seq<char> {
    Seq::new(2 * bytes.len(), |i: int|
        if i % 2 == 0 {
            hex_digit(bytes[i / 2] as int / 16)
        } else {
            hex_digit(bytes[i / 2] as int % 16)
        })
}

/// SHA-256 of `data` with `sha2::Sha256::digest`.
#[verifier::external_body]
pub(crate) fn sha256(data: &[u8]) -> (r: Vec<u8>)
    ensures
        r@ == spec_sha256(data@),
{
    <sha2::Sha256 as sha2::Digest>::digest(data).to_vec()
}

/// Lowercase hexadecimal rendering with `hex::encode`.
#[verifier::external_body]
pub(crate) fn hex_encode(bytes: &[u8]) -> (r: String)
    ensures
        r@ == spec_hex(bytes@),
{
    hex::encode(bytes)
}

/// SHA-256 of the UTF-8 bytes of `s`, in lowercase hexadecimal.
pub fn sha256_hex(s: &str) -> (r: String)
    ensures
        r@ == spec_hex(spec_sha256(s.spec_bytes())),
{
    let d = sha256(s.as_bytes());
    hex_encode(d.as_slice())
}

} // verus!
