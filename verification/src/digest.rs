//! SHA-256 digests (`sha2`) and hexadecimal text (`hex`).
use vstd::prelude::*;
use sha2::{Digest, Sha256};
use crate::text::{hex_text, lemma_hex_text_len};

verus! {

/// The SHA-256 digest of a byte sequence.
pub uninterp spec fn sha256(data: Seq<u8>) -> Seq<u8>;

/// `Sha256::digest`: the SHA-256 digest of the data (left to the name
/// `sha256`), which is 32 bytes long. Feeding the data in several `update`
/// calls gives the digest of their concatenation, so callers hash one buffer.
#[verifier::external_body]
pub fn sha256_digest(data: &[u8]) -> (r: Vec<u8>)
    ensures
        r@ == sha256(data@),
        r@.len() == 32,
{
    Sha256::digest(data).to_vec()
}

/// Lowercase hexadecimal text of bytes, two digits per byte, high digit first.
pub open spec fn hex_encoding(data: Seq<u8>) -> Seq<char>
    decreases data.len(),
{
    if data.len() == 0 {
        Seq::empty()
    } else {
        hex_encoding(data.drop_last()) + hex_text(data.last() as nat, 2)
    }
}

/// Hex text has two characters per byte.
pub proof fn lemma_hex_encoding_len(data: Seq<u8>)
    ensures
        hex_encoding(data).len() == 2 * data.len(),
    decreases data.len(),
{
    if data.len() > 0 {
        lemma_hex_encoding_len(data.drop_last());
        lemma_hex_text_len(data.last() as nat, 2);
    }
}

/// `hex::encode`: lowercase hexadecimal, two digits per byte, high digit first.
#[verifier::external_body]
pub fn hex_encode(data: &[u8]) -> (r: String)
    ensures
        r@ == hex_encoding(data@),
{
    hex::encode(data)
}

} // verus!
