use sol_service::hello_body;
use sol_service::keypair::{generate_keypair, keypair_response};
use sol_service::pubkey::{pubkey_roundtrip, pubkey_to_base58, Pubkey};
use sol_service::transfer::{build_transfer_response, TransferError};
use std::str::FromStr;

const ZEROS32: &str = "11111111111111111111111111111111";
const KEY_X: &str = "4wBqpZM9xaSheZzJSMawUKKwhdpChKbZ5eu5ky4Vigw";
const KEY_Y: &str = "3APZt7ozMtE2uLgm6RQjfR9r7YJq2QLTtPLkqnWiAGxQ";

#[test]
fn hello_returns_greeting() {
    assert_eq!(hello_body(), "hello");
}

#[test]
fn system_program_id_parses_as_key() {
    let r = build_transfer_response(ZEROS32, KEY_Y, 1).expect("the system program id parses");
    assert_eq!(r.accounts[0], ZEROS32);
}

#[test]
fn rejects_key_with_invalid_char() {
    let bad = "0000000000000000000000000000000000000000000";
    let r = build_transfer_response(bad, KEY_Y, 1);
    assert_eq!(r.unwrap_err(), TransferError::InvalidFromPubkey);
    let r = build_transfer_response(KEY_X, "bad!key", 1);
    assert_eq!(r.unwrap_err(), TransferError::InvalidToPubkey);
}

#[test]
fn rejects_key_of_wrong_length() {
    let r = build_transfer_response("", KEY_Y, 1);
    assert_eq!(r.unwrap_err(), TransferError::InvalidFromPubkey);
    let r = build_transfer_response("abc", KEY_Y, 1);
    assert_eq!(r.unwrap_err(), TransferError::InvalidFromPubkey);
    let too_long = "1".repeat(45);
    let r = build_transfer_response(&too_long, KEY_Y, 1);
    assert_eq!(r.unwrap_err(), TransferError::InvalidFromPubkey);
}

#[test]
fn pubkey_renders_canonically() {
    let p = Pubkey { bytes: vec![0u8; 32] };
    assert_eq!(pubkey_to_base58(&p), ZEROS32);
    let q = Pubkey { bytes: (1u8..=32).collect() };
    assert_eq!(pubkey_to_base58(&q), KEY_X);
}

#[test]
fn pubkey_text_round_trips() {
    let p = Pubkey { bytes: (32u8..=63).collect() };
    let back = pubkey_roundtrip(&p).expect("a rendered key parses again");
    assert_eq!(back.bytes, p.bytes);
}

#[test]
fn transfer_success_shape() {
    let r = build_transfer_response(KEY_X, KEY_Y, 1).expect("a valid request succeeds");
    assert_eq!(r.program_id, ZEROS32);
    assert_eq!(r.accounts, vec![KEY_X.to_string(), KEY_Y.to_string()]);
    assert_eq!(r.instruction_data, "3Bxs412MvVNQj175");
}

#[test]
fn transfer_data_encodes_lamports() {
    let r = build_transfer_response(KEY_X, KEY_Y, 100).expect("a valid request succeeds");
    assert_eq!(r.instruction_data, "3Bxs4HanWsHUZCbH");
}

#[test]
fn transfer_matches_library_instruction() {
    let from = solana_sdk::pubkey::Pubkey::from_str(KEY_X).unwrap();
    let to = solana_sdk::pubkey::Pubkey::from_str(KEY_Y).unwrap();
    let ins = solana_system_interface::instruction::transfer(&from, &to, 42);
    let r = build_transfer_response(KEY_X, KEY_Y, 42).expect("a valid request succeeds");
    assert_eq!(r.program_id, ins.program_id.to_string());
    let want: Vec<String> = ins.accounts.iter().map(|a| a.pubkey.to_string()).collect();
    assert_eq!(r.accounts, want);
    assert_eq!(r.instruction_data, bs58::encode(&ins.data).into_string());
}

#[test]
fn transfer_rejects_invalid_from() {
    let r = build_transfer_response("not a key", KEY_Y, 1);
    assert_eq!(r.unwrap_err(), TransferError::InvalidFromPubkey);
}

#[test]
fn transfer_checks_from_before_to() {
    let r = build_transfer_response("not a key", "also bad", 0);
    assert_eq!(r.unwrap_err(), TransferError::InvalidFromPubkey);
}

#[test]
fn transfer_rejects_invalid_to() {
    let r = build_transfer_response(KEY_X, "not a key", 1);
    assert_eq!(r.unwrap_err(), TransferError::InvalidToPubkey);
}

#[test]
fn transfer_checks_to_before_amount() {
    let r = build_transfer_response(KEY_X, "not a key", 0);
    assert_eq!(r.unwrap_err(), TransferError::InvalidToPubkey);
}

#[test]
fn transfer_rejects_zero_lamports() {
    let r = build_transfer_response(KEY_X, KEY_Y, 0);
    assert_eq!(r.unwrap_err(), TransferError::ZeroLamports);
}

#[test]
fn error_messages() {
    assert_eq!(
        TransferError::InvalidFromPubkey.message(),
        "Invalid from pubkey format"
    );
    assert_eq!(
        TransferError::InvalidToPubkey.message(),
        "Invalid to pubkey format"
    );
    assert_eq!(
        TransferError::ZeroLamports.message(),
        "Lamports amount must be greater than 0"
    );
}

#[test]
fn keypair_response_renders_both_parts() {
    let kp: Vec<u8> = (0u8..64).collect();
    let r = keypair_response(&kp);
    assert_eq!(
        r.secret,
        "1GMkH3brNXiNNs1tiFZHu4yZSRrzJwxi5wB9bHFtMinfCXNnR1adh8Vo8NTheK4evneedH4qmvjeqcBBNAefgS"
    );
    assert_eq!(r.pubkey, "3ARMH9zfVCnU2TKiphU4xcEyWdA45fc1sjKEtYMdf3gr");
}

#[test]
fn generated_keypair_is_consistent() {
    let r = generate_keypair();
    let kp = bs58::decode(&r.secret).into_vec().expect("the secret is base58");
    assert_eq!(kp.len(), 64);
    assert_eq!(r.pubkey, bs58::encode(&kp[32..]).into_string());
    let again = build_transfer_response(&r.pubkey, ZEROS32, 1)
        .expect("the reported public key parses");
    assert_eq!(again.accounts[0], r.pubkey);
}

#[test]
fn generated_keypairs_differ() {
    let a = generate_keypair();
    let b = generate_keypair();
    assert_ne!(a.secret, b.secret);
}
