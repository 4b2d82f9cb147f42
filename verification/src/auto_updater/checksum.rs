//! The SHA256 checksum of a download.
use crate::text::join2;
use crate::text::lowercase;
use crate::text::same_text;
use crate::text::to_lowercase;
use sha2::Digest;
use sha2::Sha256;
use vstd::prelude::*;
use vstd::string::*;

verus! {

/// The SHA-256 digest of `data`, as `sha2` computes it.
pub uninterp spec fn sha256(data: Seq<u8>) -> Seq<u8>;

/// The lower-case hexadecimal digit of a value below 16.
pub open spec fn hex_digit(value: int) -> char {
    if value == 0 {
        '0'
    } else if value == 1 {
        '1'
    } else if value == 2 {
        '2'
    } else if value == 3 {
        '3'
    } else if value == 4 {
        '4'
    } else if value == 5 {
        '5'
    } else if value == 6 {
        '6'
    } else if value == 7 {
        '7'
    } else if value == 8 {
        '8'
    } else if value == 9 {
        '9'
    } else if value == 10 {
        'a'
    } else if value == 11 {
        'b'
    } else if value == 12 {
        'c'
    } else if value == 13 {
        'd'
    } else if value == 14 {
        'e'
    } else {
        'f'
    }
}

/// `data` in hexadecimal: two lower-case digits for each byte, the high
/// half first.
pub open spec fn hex_of(data: Seq<u8>) -> Seq<char> {
    Seq::new(
        2 * data.len(),
        |i: int|
            if i % 2 == 0 {
                hex_digit(data[i / 2] as int / 16)
            } else {
                hex_digit(data[i / 2] as int % 16)
            },
    )
}

/// `Sha256::digest`.
#[verifier::external_body]
fn sha256_digest(data: &[u8]) -> (digest: Vec<u8>)
    ensures
        digest@ == sha256(data@),
{
    Sha256::digest(data).to_vec()
}

/// `hex::encode`: each byte as two lower-case hexadecimal digits.
#[verifier::external_body]
fn hex_encode(data: &[u8]) -> (encoded: String)
    ensures
        encoded@ == hex_of(data@),
{
    hex::encode(data)
}

/// The checksum of `contents` as it is written in checksum files.
pub open spec fn checksum_text(contents: Seq<u8>) -> Seq<char> {
    hex_of(sha256(contents))
}

/// Whether `expected_hash` names the checksum `actual_hash`: the two are
/// the same but for the case of their letters.
pub open spec fn checksum_matches(actual_hash: Seq<char>, expected_hash: Seq<char>) -> bool {
    lowercase(actual_hash) == lowercase(expected_hash)
}

/// What is said when the checksums differ.
pub open spec fn mismatch_text(expected_hash: Seq<char>, actual_hash: Seq<char>) -> Seq<char> {
    "SHA256 mismatch! Expected: "@ + expected_hash + ", Got: "@ + actual_hash
}

/// The SHA256 checksum of `contents`, in lower-case hexadecimal.
pub fn sha256_hex(contents: &[u8]) -> (hash: String)
    ensures
        hash@ == checksum_text(contents@),
{
    let digest = sha256_digest(contents);
    hex_encode(digest.as_slice())
}

/// Compares the checksum `actual_hash` of a download with the checksum
/// `expected_hash` that was published for it.
pub fn compare_sha256(actual_hash: &str, expected_hash: &str) -> (verdict: Result<(), String>)
    ensures
        checksum_matches(actual_hash@, expected_hash@) ==> verdict is Ok,
        !checksum_matches(actual_hash@, expected_hash@) ==> (verdict matches Err(message)
            && message@ == mismatch_text(expected_hash@, actual_hash@)),
{
    let actual = to_lowercase(actual_hash);
    let expected = to_lowercase(expected_hash);
    if same_text(actual.as_str(), expected.as_str()) {
        Ok(())
    } else {
        let message = join2("SHA256 mismatch! Expected: ", expected_hash).concat(", Got: ").concat(
            actual_hash,
        );
        Err(message)
    }
}

/// Verify the SHA256 checksum of a downloaded file, given its contents.
pub fn verify_sha256(contents: &[u8], expected_hash: &str) -> (verdict: Result<(), String>)
    ensures
        checksum_matches(checksum_text(contents@), expected_hash@) ==> verdict is Ok,
        !checksum_matches(checksum_text(contents@), expected_hash@) ==> (verdict matches Err(
            message,
        ) && message@ == mismatch_text(expected_hash@, checksum_text(contents@))),
{
    let actual_hash = sha256_hex(contents);
    compare_sha256(actual_hash.as_str(), expected_hash)
}

} // verus!
