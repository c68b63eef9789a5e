//! The de-duplication identifier: lowercase hexadecimal of the SHA-256
//! digest of a URL's bytes. The same URL yields the same identifier in
//! every process, so the identifier can serve as a shared store key.

use vstd::prelude::*;
use vstd::utf8::encode_utf8;

verus! {

/// The 32-byte SHA-256 digest of `bytes`.
pub uninterp spec fn sha256_of(bytes: Seq<u8>) -> Seq<u8>;

/// The lowercase hexadecimal digit for a nibble.
pub open spec fn spec_hex_digit(n: u8) -> char
    recommends
        n < 16,
{
    seq!['0', '1', '2', '3', '4', '5', '6', '7', '8', '9', 'a', 'b', 'c', 'd', 'e', 'f'][n as int]
}

/// Lowercase hexadecimal of a byte sequence: two digits per byte, high
/// nibble first.
pub open spec fn spec_hex(bytes: Seq<u8>) -> Seq<char>
    decreases bytes.len(),
{
    if bytes.len() == 0 {
        Seq::empty()
    } else {
        seq![spec_hex_digit(bytes[0] / 16), spec_hex_digit(bytes[0] % 16)] + spec_hex(
            bytes.drop_first(),
        )
    }
}

pub proof fn lemma_spec_hex_len(bytes: Seq<u8>)
    ensures
        spec_hex(bytes).len() == 2 * bytes.len(),
    decreases bytes.len(),
{
    if bytes.len() > 0 {
        lemma_spec_hex_len(bytes.drop_first());
    }
}

/// Relies on sha2::Sha256 through digest::Digest::digest: the result is the
/// SHA-256 digest of the input, 32 bytes, a function of the input alone.
#[verifier::external_body]
fn sha256_digest(data: &[u8]) -> (r: Vec<u8>)
    ensures
        r@ == sha256_of(data@),
        r@.len() == 32,
{
    <sha2::Sha256 as sha2::Digest>::digest(data).to_vec()
}

/// Relies on hex::encode: lowercase hexadecimal, two digits per byte, high
/// nibble first.
#[verifier::external_body]
fn hex_encode(data: &[u8]) -> (r: String)
    ensures
        r@ == spec_hex(data@),
{
    hex::encode(data)
}

/// The de-duplication identifier of a URL, over the URL's characters.
pub open spec fn spec_identifier(url: Seq<char>) -> Seq<char> {
    spec_hex(sha256_of(encode_utf8(url)))
}

/// The store key under which a fresh fetch of `url` is marked.
pub fn create_identifier(url: &String) -> (r: String)
    ensures
        r@ == spec_identifier(url@),
        r@.len() == 64,
{
    let digest = sha256_digest(url.as_str().as_bytes());
    proof {
        lemma_spec_hex_len(digest@);
    }
    hex_encode(digest.as_slice())
}

/// Two observations of the same URL always map to the same store key, in
/// this process or another: the identifier depends on the URL alone.
pub proof fn lemma_identifier_deterministic(url_a: Seq<char>, url_b: Seq<char>)
    requires
        url_a == url_b,
    ensures
        spec_identifier(url_a) == spec_identifier(url_b),
{
}

} // verus!
