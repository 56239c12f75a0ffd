use vstd::prelude::*;
use vstd::utf8::encode_utf8;
use crate::base58::base58_text;
use crate::base58::is_base58_char;
use crate::base58::lemma_base58_alphabet;
use crate::base58::lemma_base58_length_of_32_bytes;
use sha2::Digest;
use sha2::Sha256;

verus! {

/// The SHA-256 digest of a byte sequence, as the sha2 crate computes it.
pub uninterp spec fn sha256_of(data: Seq<u8>) -> Seq<u8>;

/// The digest text of a string: Base58 of the SHA-256 of its UTF-8 bytes.
pub open spec fn text_digest(text: Seq<char>) -> Seq<char> {
    base58_text(sha256_of(encode_utf8(text)))
}

/// Calls `sha2::Sha256::digest` on `data`.
/// Trusted: the result is the SHA-256 digest of `data`, which the crate
/// documents as a 32-byte output.
#[verifier::external_body]
fn sha256(data: &[u8]) -> (d: Vec<u8>)
    ensures
        d@ == sha256_of(data@),
        d@.len() == 32,
{
    Sha256::digest(data).to_vec()
}

/// Calls `bs58::encode(data).into_string()` with the default (Bitcoin) alphabet.
/// Trusted: the result is the Base58 text of `data` as `base58_text` states it
/// (a `1` for each leading zero byte, then the Base58 digits of the big-endian
/// number); the encoder writes into a growable `String`, so it cannot fail.
#[verifier::external_body]
fn base58(data: &[u8]) -> (s: String)
    ensures
        s@ == base58_text(data@),
{
    bs58::encode(data).into_string()
}

/// A hash text: the Base58 text of a 32-byte digest, which has 32 to 44
/// characters, all from the Bitcoin alphabet.
pub open spec fn is_hash_text(t: Seq<char>) -> bool {
    &&& 32 <= t.len() <= 44
    &&& forall|i: int| 0 <= i < t.len() ==> is_base58_char(#[trigger] t[i])
}

/// Hashes a text: SHA-256 over its UTF-8 bytes, written in Base58.
pub fn hasher(content: String) -> (h: String)
    ensures
        h@ == text_digest(content@),
        is_hash_text(h@),
{
    let bytes = content.as_str().as_bytes();
    let d = sha256(bytes);
    proof {
        lemma_base58_length_of_32_bytes(d@);
        lemma_base58_alphabet(d@);
    }
    base58(d.as_slice())
}

} // verus!
