//! Content hashing for output naming: the SHA3-256 digest of a string,
//! rendered as lowercase hexadecimal. The pipeline applies it to the
//! input's parent-directory path, so derivatives are namespaced by
//! location, not by pixel content.
use vstd::prelude::*;
use sha3::Digest;
use sha3::Sha3_256;
use crate::text::append_hex;
use crate::text::hex_of;
use crate::text::lemma_hex_of_len;

verus! {

/// The SHA3-256 digest of the UTF-8 encoding of a character sequence.
pub uninterp spec fn sha3_256_of(s: Seq<char>) -> Seq<u8>;

/// Relies on `sha3::Sha3_256` through the `Digest` trait: the digest
/// of the UTF-8 bytes of `value`, a fixed 32-byte value that depends
/// on the characters alone.
#[verifier::external_body]
fn sha3_digest(value: &str) -> (r: Vec<u8>)
    ensures
        r@ == sha3_256_of(value@),
        r@.len() == 32,
{
    Sha3_256::digest(value.as_bytes()).to_vec()
}

/// The digest a string hashes to, as sixty-four hexadecimal digits.
pub open spec fn spec_str_hash(s: Seq<char>) -> Seq<char> {
    hex_of(sha3_256_of(s))
}

/// Hashes a string to its fixed-length hexadecimal SHA3-256 digest.
/// Deterministic: equal strings always hash to equal digests.
pub fn str_to_hash(value: &str) -> (r: String)
    ensures
        r@ == spec_str_hash(value@),
        r@.len() == 64,
{
    let digest = sha3_digest(value);
    let mut out = String::new();
    append_hex(&mut out, &digest);
    proof {
        lemma_hex_of_len(sha3_256_of(value@));
    }
    out
}

} // verus!
