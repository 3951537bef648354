//! Base64 text of inline binary payloads.
use vstd::prelude::*;

verus! {

/// The standard, padded base64 text of `b`.
pub uninterp spec fn base64_of(b: Seq<u8>) -> Seq<char>;

/// Relies on base64's `Engine::encode` with the `STANDARD` engine (standard
/// alphabet, padded): the text depends on the bytes alone, and has four
/// characters for every started group of three bytes. It panics only
/// where the encoded length would pass `usize::MAX`, which takes more than
/// `isize::MAX` input bytes, more than any `Vec` holds.
#[verifier::external_body]
pub(crate) fn base64_encode(data: &Vec<u8>) -> (r: String)
    ensures
        r@ == base64_of(data@),
        r@.len() == 4 * ((data@.len() + 2) / 3),
{
    base64::Engine::encode(&base64::engine::general_purpose::STANDARD, data)
}

} // verus!
