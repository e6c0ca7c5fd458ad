//! A small account/transfer service library: parsing of base58 account
//! keys, construction of a value-transfer instruction descriptor, and
//! shaping of generated key pairs, each with a verified contract.

use vstd::prelude::*;

pub mod base58;
pub mod pubkey;
pub mod transfer;
pub mod keypair;

verus! {

/// The greeting that the service returns on its probe route.
pub fn hello_body() -> (r: String)
    ensures
        r@ == "hello"@,
{
    String::from_str("hello")
}

} // verus!
