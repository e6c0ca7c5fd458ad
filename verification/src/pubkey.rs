//! Account public keys: the 32-byte model, and parsing from base58 text.

use vstd::prelude::*;
use crate::base58::{base58_of, base58_decoded_32, base58_encode};

verus! {

/// An account public key, held as its 32 bytes.
pub struct Pubkey {
    pub bytes: Vec<u8>,
}

impl Pubkey {
    /// A public key is well formed when it holds exactly 32 bytes.
    pub open spec fn wf(self) -> bool {
        self.bytes@.len() == 32
    }
}

/// A text parses as a public key when it is at most 44 characters long and
/// stands, in base58, for exactly 32 bytes.
pub open spec fn parses_as_pubkey(s: Seq<char>) -> bool {
    s.len() <= 44 && base58_decoded_32(s) is Some
}

/// Relies on `solana_sdk::pubkey::Pubkey::from_str`: it accepts a text of at
/// most 44 characters that base58-decodes to exactly 32 bytes, and returns
/// those bytes; it rejects every other text.
#[verifier::external_body]
pub(crate) fn parse_pubkey(s: &str) -> (r: Option<Pubkey>)
    ensures
        r is Some <==> parses_as_pubkey(s@),
        r is Some ==> r.unwrap().bytes@ == base58_decoded_32(s@).unwrap()
            && r.unwrap().bytes@.len() == 32,
{
    match <solana_sdk::pubkey::Pubkey as core::str::FromStr>::from_str(s) {
        Ok(p) => Some(Pubkey { bytes: p.to_bytes().to_vec() }),
        Err(_) => None,
    }
}

/// Renders a public key as base58 text.
pub fn pubkey_to_base58(p: &Pubkey) -> (r: String)
    requires
        p.wf(),
    ensures
        r@ == base58_of(p.bytes@),
        r@.len() <= 44,
        base58_decoded_32(r@) == Some(p.bytes@),
{
    base58_encode(&p.bytes)
}

/// Rendering a public key as text and parsing that text gives the key back.
pub fn pubkey_roundtrip(p: &Pubkey) -> (r: Option<Pubkey>)
    requires
        p.wf(),
    ensures
        r is Some,
        r.unwrap().bytes@ == p.bytes@,
{
    let s = pubkey_to_base58(p);
    parse_pubkey(s.as_str())
}

} // verus!
