//! Base-58 and base-64 text codecs, reached through the `bs58` and `base64`
//! crates. The encoded and decoded values are given names by uninterpreted
//! spec functions, and every contract in the library speaks of those names.
use vstd::prelude::*;

verus! {

/// The bytes that a base-58 text (Bitcoin alphabet) decodes to.
pub uninterp spec fn decoded_b58(s: Seq<char>) -> Seq<u8>;

/// The base-58 text (Bitcoin alphabet) that a byte string encodes to.
pub uninterp spec fn encoded_b58(b: Seq<u8>) -> Seq<char>;

/// The padded standard base-64 text that a byte string encodes to.
pub uninterp spec fn encoded_b64(b: Seq<u8>) -> Seq<char>;

/// The 58 characters that base-58 text may use.
pub open spec fn is_b58_char(c: char) -> bool {
    "123456789ABCDEFGHJKLMNPQRSTUVWXYZabcdefghijkmnopqrstuvwxyz"@.contains(c)
}

/// Every character of `s` belongs to the base-58 alphabet.
pub open spec fn is_b58_text(s: Seq<char>) -> bool {
    forall|i: int| 0 <= i < s.len() ==> is_b58_char(#[trigger] s[i])
}

/// Relies on `bs58::decode` with its default (Bitcoin) alphabet: decoding
/// into a fresh vector succeeds exactly when every input character is an
/// alphabet character, and then yields the decoded bytes.
#[verifier::external_body]
pub(crate) fn decode_b58(s: &str) -> (r: Option<Vec<u8>>)
    ensures
        r is Some <==> is_b58_text(s@),
        r matches Some(b) ==> b@ == decoded_b58(s@),
{
    match bs58::decode(s).into_vec() {
        Ok(b) => Some(b),
        Err(_) => None,
    }
}

/// Relies on `bs58::encode` with its default (Bitcoin) alphabet, which cannot
/// fail.
#[verifier::external_body]
pub(crate) fn encode_b58(b: &[u8]) -> (r: String)
    ensures
        r@ == encoded_b58(b@),
{
    bs58::encode(b).into_string()
}

/// Relies on the `base64` crate's `STANDARD` engine: padded base-64, four
/// output characters for every group of up to three input bytes.
#[verifier::external_body]
pub(crate) fn encode_b64(b: &[u8]) -> (r: String)
    ensures
        r@ == encoded_b64(b@),
        r@.len() == 4 * ((b@.len() + 2) / 3),
{
    base64::Engine::encode(&base64::engine::general_purpose::STANDARD, b)
}

} // verus!
