//! Value-transfer instructions: validation of a transfer request and the
//! shaping of the instruction descriptor that the service returns.

use vstd::prelude::*;
use crate::base58::{base58_of, base58_decoded_32, base58_encode};
use crate::pubkey::{Pubkey, parses_as_pubkey, parse_pubkey};

verus! {

/// The 32 bytes of the system program's address: all zero.
pub open spec fn system_program_id_bytes() -> Seq<u8> {
    Seq::new(32, |i: int| 0u8)
}

/// The eight bytes of `v` in little-endian order.
pub open spec fn u64_le_bytes(v: u64) -> Seq<u8> {
    seq![
        (v & 0xff) as u8,
        ((v >> 8) & 0xff) as u8,
        ((v >> 16) & 0xff) as u8,
        ((v >> 24) & 0xff) as u8,
        ((v >> 32) & 0xff) as u8,
        ((v >> 40) & 0xff) as u8,
        ((v >> 48) & 0xff) as u8,
        ((v >> 56) & 0xff) as u8,
    ]
}

/// The serialized form of a transfer of `lamports`: the 32-bit variant index
/// of the transfer variant, which is 2, then the amount, both little-endian.
pub open spec fn transfer_data_bytes(lamports: u64) -> Seq<u8> {
    seq![2u8, 0u8, 0u8, 0u8] + u64_le_bytes(lamports)
}

/// What a built transfer instruction holds, as plain bytes: the program's
/// address, the addresses of the accounts it touches in order, and the
/// serialized instruction data.
pub struct RawInstruction {
    pub program_id: Vec<u8>,
    pub account_keys: Vec<Vec<u8>>,
    pub data: Vec<u8>,
}

/// Relies on `solana_system_interface::instruction::transfer`: the built
/// instruction names the system program (32 zero bytes), lists the funding
/// and the receiving account in that order, and carries the bincode
/// serialization of the transfer variant: its 32-bit variant index 2
/// followed by the amount, both little-endian.
#[verifier::external_body]
fn transfer_instruction(from: &Pubkey, to: &Pubkey, lamports: u64) -> (r: RawInstruction)
    requires
        from.wf(),
        to.wf(),
    ensures
        r.program_id@ == system_program_id_bytes(),
        r.account_keys@.len() == 2,
        r.account_keys@[0]@ == from.bytes@,
        r.account_keys@[1]@ == to.bytes@,
        r.data@ == transfer_data_bytes(lamports),
{
    let f = solana_sdk::pubkey::Pubkey::try_from(from.bytes.as_slice()).unwrap();
    let t = solana_sdk::pubkey::Pubkey::try_from(to.bytes.as_slice()).unwrap();
    let ins = solana_system_interface::instruction::transfer(&f, &t, lamports);
    RawInstruction {
        program_id: ins.program_id.to_bytes().to_vec(),
        account_keys: ins.accounts.iter().map(|a| a.pubkey.to_bytes().to_vec()).collect(),
        data: ins.data,
    }
}

/// Why a transfer request was turned away, in the order the checks run.
#[derive(Clone, Copy, Debug, PartialEq, Eq, Structural)]
pub enum TransferError {
    InvalidFromPubkey,
    InvalidToPubkey,
    ZeroLamports,
}

impl TransferError {
    /// The message that the service reports for this error.
    pub open spec fn message_spec(self) -> Seq<char> {
        match self {
            TransferError::InvalidFromPubkey => "Invalid from pubkey format"@,
            TransferError::InvalidToPubkey => "Invalid to pubkey format"@,
            TransferError::ZeroLamports => "Lamports amount must be greater than 0"@,
        }
    }

    /// Renders the message that the service reports for this error.
    pub fn message(&self) -> (r: String)
        ensures
            r@ == self.message_spec(),
    {
        match self {
            TransferError::InvalidFromPubkey => String::from_str("Invalid from pubkey format"),
            TransferError::InvalidToPubkey => String::from_str("Invalid to pubkey format"),
            TransferError::ZeroLamports => {
                String::from_str("Lamports amount must be greater than 0")
            },
        }
    }
}

/// The body of a successful transfer response: the program's address, the
/// touched accounts, and the instruction data, each as base58 text.
#[derive(Debug)]
pub struct InstructionResponse {
    pub program_id: String,
    pub accounts: Vec<String>,
    pub instruction_data: String,
}

/// Builds the response for a transfer request: checks the funding address,
/// the receiving address and the amount in that order, and renders the built
/// instruction as base58 text.
pub fn build_transfer_response(from: &str, to: &str, lamports: u64) -> (r: Result<
    InstructionResponse,
    TransferError,
>)
    ensures
        !parses_as_pubkey(from@) ==> r == Err::<InstructionResponse, TransferError>(
            TransferError::InvalidFromPubkey,
        ),
        parses_as_pubkey(from@) && !parses_as_pubkey(to@) ==> r == Err::<
            InstructionResponse,
            TransferError,
        >(TransferError::InvalidToPubkey),
        parses_as_pubkey(from@) && parses_as_pubkey(to@) && lamports == 0 ==> r == Err::<
            InstructionResponse,
            TransferError,
        >(TransferError::ZeroLamports),
        parses_as_pubkey(from@) && parses_as_pubkey(to@) && lamports > 0 ==> r is Ok && (
        {
            let resp = r.unwrap();
            &&& resp.program_id@ == base58_of(system_program_id_bytes())
            &&& resp.accounts@.len() == 2
            &&& resp.accounts@[0]@ == base58_of(base58_decoded_32(from@).unwrap())
            &&& resp.accounts@[1]@ == base58_of(base58_decoded_32(to@).unwrap())
            &&& resp.instruction_data@ == base58_of(transfer_data_bytes(lamports))
        }),
{
    let from_pk = match parse_pubkey(from) {
        Some(p) => p,
        None => {
            return Err(TransferError::InvalidFromPubkey);
        },
    };
    let to_pk = match parse_pubkey(to) {
        Some(p) => p,
        None => {
            return Err(TransferError::InvalidToPubkey);
        },
    };
    if lamports == 0 {
        return Err(TransferError::ZeroLamports);
    }
    let ins = transfer_instruction(&from_pk, &to_pk, lamports);
    let program_id = base58_encode(&ins.program_id);
    let instruction_data = base58_encode(&ins.data);
    let mut accounts: Vec<String> = Vec::new();
    let mut i: usize = 0;
    while i < ins.account_keys.len()
        invariant
            i <= ins.account_keys@.len(),
            accounts@.len() == i,
            forall|j: int|
                0 <= j < i ==> #[trigger] accounts@[j]@ == base58_of(ins.account_keys@[j]@),
        decreases ins.account_keys@.len() - i,
    {
        let s = base58_encode(&ins.account_keys[i]);
        accounts.push(s);
        i += 1;
    }
    Ok(InstructionResponse { program_id, accounts, instruction_data })
}

} // verus!
