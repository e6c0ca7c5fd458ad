//! Base58 text, as the service renders byte strings for its responses.

use vstd::prelude::*;

verus! {

/// The base58 rendering of a byte string, over the Bitcoin alphabet and
/// without check bytes, as the `bs58` crate's `encode` computes it.
pub uninterp spec fn base58_of(bytes: Seq<u8>) -> Seq<char>;

/// The byte string that a base58 text stands for, when it decodes to exactly
/// 32 bytes, as the `five8` crate's `decode_32` computes it; `None` where the
/// text holds a character outside the alphabet or stands for another length.
pub uninterp spec fn base58_decoded_32(s: Seq<char>) -> Option<Seq<u8>>;

/// Relies on `bs58::encode` (Bitcoin alphabet, no check bytes). For 32 input
/// bytes the text is at most 44 characters, and decoding it gives the input
/// back: `bs58` and `five8` both document the one standard base58 encoding,
/// whose decoding inverts it.
#[verifier::external_body]
pub(crate) fn base58_encode(bytes: &Vec<u8>) -> (r: String)
    ensures
        r@ == base58_of(bytes@),
        bytes@.len() == 32 ==> r@.len() <= 44 && base58_decoded_32(r@) == Some(bytes@),
{
    bs58::encode(bytes.as_slice()).into_string()
}

} // verus!
