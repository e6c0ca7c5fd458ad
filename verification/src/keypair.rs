//! Key pair generation: the raw 64 bytes of a fresh pair, and the shaping of
//! the response that reports it.

use vstd::prelude::*;
use crate::base58::{base58_of, base58_encode};

verus! {

/// Relies on `solana_sdk::signature::Keypair`: `new` draws a fresh random
/// pair, and `to_bytes` renders it as 64 bytes, the 32 secret seed bytes
/// first, then the 32 bytes of the public key.
#[verifier::external_body]
fn generate_keypair_bytes() -> (r: Vec<u8>)
    ensures
        r@.len() == 64,
{
    let kp = solana_sdk::signature::Keypair::new();
    kp.to_bytes().to_vec()
}

/// The body of a key-pair response: the public key and the whole pair, each
/// as base58 text.
pub struct KeypairResponse {
    pub pubkey: String,
    pub secret: String,
}

/// Shapes the 64 bytes of a key pair for the response: the public key is the
/// last 32 of them, and both it and the whole pair are rendered as base58
/// text.
pub fn keypair_response(kp_bytes: &Vec<u8>) -> (r: KeypairResponse)
    requires
        kp_bytes@.len() == 64,
    ensures
        r.pubkey@ == base58_of(kp_bytes@.subrange(32, 64)),
        r.secret@ == base58_of(kp_bytes@),
{
    let mut pk: Vec<u8> = Vec::new();
    let mut i: usize = 32;
    while i < 64
        invariant
            32 <= i <= 64,
            kp_bytes@.len() == 64,
            pk@.len() == i - 32,
            forall|j: int| 0 <= j < i - 32 ==> pk@[j] == kp_bytes@[32 + j],
        decreases 64 - i,
    {
        pk.push(kp_bytes[i]);
        i += 1;
    }
    proof {
        assert(pk@ =~= kp_bytes@.subrange(32, 64));
    }
    KeypairResponse { pubkey: base58_encode(&pk), secret: base58_encode(kp_bytes) }
}

/// Generates a fresh random key pair and shapes it for the response: the
/// secret is the base58 text of some 64 key-pair bytes, and the reported
/// public key is the base58 text of the last 32 of those same bytes.
pub fn generate_keypair() -> (r: KeypairResponse)
    ensures
        exists|kp: Seq<u8>|
            kp.len() == 64 && r.secret@ == base58_of(kp) && r.pubkey@ == base58_of(
                kp.subrange(32, 64),
            ),
{
    let bytes = generate_keypair_bytes();
    let r = keypair_response(&bytes);
    proof {
        let kp = bytes@;
        assert(kp.len() == 64 && r.secret@ == base58_of(kp) && r.pubkey@ == base58_of(
            kp.subrange(32, 64),
        ));
    }
    r
}

} // verus!
