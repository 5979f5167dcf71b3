//! Content checksums: the lower-case hexadecimal SHA-256 digest of a byte stream.

use vstd::prelude::*;

verus! {

/// The SHA-256 digest of `data`.
pub uninterp spec fn sha256(data: Seq<u8>) -> Seq<u8>;

/// The lower-case hexadecimal digit for a value below sixteen.
pub open spec fn hex_digit(nibble: int) -> char {
    if nibble == 0 {
        '0'
    } else if nibble == 1 {
        '1'
    } else if nibble == 2 {
        '2'
    } else if nibble == 3 {
        '3'
    } else if nibble == 4 {
        '4'
    } else if nibble == 5 {
        '5'
    } else if nibble == 6 {
        '6'
    } else if nibble == 7 {
        '7'
    } else if nibble == 8 {
        '8'
    } else if nibble == 9 {
        '9'
    } else if nibble == 10 {
        'a'
    } else if nibble == 11 {
        'b'
    } else if nibble == 12 {
        'c'
    } else if nibble == 13 {
        'd'
    } else if nibble == 14 {
        'e'
    } else {
        'f'
    }
}

/// Two lower-case hexadecimal digits per byte, high nibble first.
pub open spec fn hex_lower(data: Seq<u8>) -> Seq<char> {
    Seq::new(
        2 * data.len(),
        |i: int|
            if i % 2 == 0 {
                hex_digit(data[i / 2] as int / 16)
            } else {
                hex_digit(data[i / 2] as int % 16)
            },
    )
}

/// The checksum under which a byte stream is known: `hex_lower` of its SHA-256 digest.
pub open spec fn checksum_text(data: Seq<u8>) -> Seq<char> {
    hex_lower(sha256(data))
}

/// Calls `sha2::Sha256::digest`, which hashes the whole slice at once; the
/// digest is named by `sha256`.
#[verifier::external_body]
fn sha256_digest(data: &[u8]) -> (res: Vec<u8>)
    ensures
        res@ == sha256(data@),
{
    <sha2::Sha256 as sha2::Digest>::digest(data).to_vec()
}

/// Calls `hex::encode`, which writes each byte as two digits taken from
/// `0123456789abcdef`, the high four bits first.
#[verifier::external_body]
fn hex_encode(data: &[u8]) -> (res: String)
    ensures
        res@ == hex_lower(data@),
{
    hex::encode(data)
}

/// Computes the checksum of a byte stream.
pub fn calculate_checksum(data: &[u8]) -> (res: String)
    ensures
        res@ == checksum_text(data@),
{
    let digest = sha256_digest(data);
    hex_encode(digest.as_slice())
}

/// Whether a byte stream hashes to the expected checksum.
pub fn checksum_matches(data: &[u8], expected: &str) -> (res: bool)
    ensures
        res == (checksum_text(data@) == expected@),
{
    let actual = calculate_checksum(data);
    crate::text::str_eq(actual.as_str(), expected)
}

} // verus!
