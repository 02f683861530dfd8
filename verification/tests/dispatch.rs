//! End-to-end scenarios through the dispatcher and the handlers.
use marketplace::accounts::{Account, Pubkey};
use marketplace::errors::ProgramError;
use marketplace::handlers::transfer_sol;
use marketplace::process_instruction;

fn key(b: u8) -> Pubkey {
    Pubkey { bytes: [b; 32] }
}

fn wallet(key_byte: u8, lamports: u64, is_signer: bool) -> Account {
    Account {
        key: key(key_byte),
        lamports,
        data: Vec::new(),
        owner: key(0),
        is_signer,
    }
}

fn fresh_item_account(key_byte: u8) -> Account {
    wallet(key_byte, 0, false)
}

fn list_payload(price: u64) -> Vec<u8> {
    let mut payload = vec![0u8];
    payload.extend_from_slice(&price.to_le_bytes());
    payload
}

fn transfer_payload(amount: u64) -> Vec<u8> {
    let mut payload = vec![2u8];
    payload.extend_from_slice(&amount.to_le_bytes());
    payload
}

const PROGRAM: u8 = 99;
const PAYER: u8 = 11;
const BUYER: u8 = 22;
const ITEM: u8 = 33;
const SYSTEM: u8 = 0;

#[test]
fn list_then_buy_happy_path() {
    let program_id = key(PROGRAM);
    let price: u64 = 1_000_000_000;

    // The payer signs the list instruction.
    let mut accounts = vec![
        wallet(PAYER, 2_000_000_000, true),
        fresh_item_account(ITEM),
        wallet(SYSTEM, 0, false),
        wallet(SYSTEM, 0, false),
    ];
    let r = process_instruction(&program_id, &mut accounts, &list_payload(price));
    assert_eq!(r, Ok(()));

    let item = &accounts[1];
    assert_eq!(item.data.len(), 73);
    assert_eq!(item.data[0], 1);
    assert_eq!(&item.data[1..33], &[PAYER; 32]);
    assert_eq!(&item.data[33..41], &[0x00, 0xca, 0x9a, 0x3b, 0x00, 0x00, 0x00, 0x00]);
    assert_eq!(item.data[41], 1);
    assert_eq!(&item.data[42..73], &[0u8; 31]);
    assert_eq!(item.owner.bytes, [PROGRAM; 32]);

    // The item account was funded by the payer, to the rent-exempt minimum.
    let rent = item.lamports;
    assert_eq!(accounts[0].lamports, 2_000_000_000 - rent);
    assert_eq!(rent, 1_398_960);

    // The buyer signs the buy instruction; the seller account carries the
    // payer's key.
    let item_account = accounts.remove(1);
    let mut accounts = vec![
        wallet(BUYER, 5_000_000_000, true),
        item_account,
        wallet(PAYER, 2_000_000_000 - rent, false),
        wallet(SYSTEM, 0, false),
    ];
    let r = process_instruction(&program_id, &mut accounts, &[1u8]);
    assert_eq!(r, Ok(()));

    // The price moved from the buyer to the seller and the listing closed.
    assert_eq!(accounts[0].lamports, 5_000_000_000 - price);
    assert_eq!(accounts[2].lamports, 2_000_000_000 - rent + price);
    assert_eq!(accounts[1].data[41], 0);
    assert_eq!(accounts[1].data[0], 1);
    assert_eq!(&accounts[1].data[1..33], &[PAYER; 32]);
}

#[test]
fn double_buy_rejected() {
    let program_id = key(PROGRAM);
    let mut accounts = vec![
        wallet(PAYER, 2_000_000_000, true),
        fresh_item_account(ITEM),
        wallet(SYSTEM, 0, false),
        wallet(SYSTEM, 0, false),
    ];
    process_instruction(&program_id, &mut accounts, &list_payload(1_000_000_000)).unwrap();
    let item_account = accounts.remove(1);
    let mut accounts = vec![
        wallet(BUYER, 5_000_000_000, true),
        item_account,
        wallet(PAYER, 0, false),
        wallet(SYSTEM, 0, false),
    ];
    process_instruction(&program_id, &mut accounts, &[1u8]).unwrap();

    let buyer_after = accounts[0].lamports;
    let seller_after = accounts[2].lamports;
    let r = process_instruction(&program_id, &mut accounts, &[1u8]);
    assert_eq!(r, Err(ProgramError::InvalidAccountData));
    // No second transfer happened.
    assert_eq!(accounts[0].lamports, buyer_after);
    assert_eq!(accounts[2].lamports, seller_after);
}

#[test]
fn truncated_list_payload_rejected() {
    let program_id = key(PROGRAM);
    let mut accounts = vec![
        wallet(PAYER, 2_000_000_000, true),
        fresh_item_account(ITEM),
        wallet(SYSTEM, 0, false),
        wallet(SYSTEM, 0, false),
    ];
    let r = process_instruction(&program_id, &mut accounts, &[0x00, 0x01, 0x02]);
    assert_eq!(r, Err(ProgramError::InvalidInstructionData));
    // No account was created.
    assert_eq!(accounts[1].lamports, 0);
    assert_eq!(accounts[1].data.len(), 0);
    assert_eq!(accounts[0].lamports, 2_000_000_000);
}

#[test]
fn unknown_opcode_rejected() {
    let program_id = key(PROGRAM);
    let mut accounts = vec![
        wallet(PAYER, 2_000_000_000, true),
        fresh_item_account(ITEM),
        wallet(SYSTEM, 0, false),
        wallet(SYSTEM, 0, false),
    ];
    let r = process_instruction(&program_id, &mut accounts, &[0xff]);
    assert_eq!(r, Err(ProgramError::InvalidInstructionData));
}

#[test]
fn empty_payload_rejected() {
    let program_id = key(PROGRAM);
    let mut accounts = vec![
        wallet(PAYER, 2_000_000_000, true),
        fresh_item_account(ITEM),
        wallet(SYSTEM, 0, false),
        wallet(SYSTEM, 0, false),
    ];
    let r = process_instruction(&program_id, &mut accounts, &[]);
    assert_eq!(r, Err(ProgramError::InvalidInstructionData));
}

#[test]
fn unsigned_buyer_rejected() {
    let program_id = key(PROGRAM);
    let mut accounts = vec![
        wallet(PAYER, 2_000_000_000, true),
        fresh_item_account(ITEM),
        wallet(SYSTEM, 0, false),
        wallet(SYSTEM, 0, false),
    ];
    process_instruction(&program_id, &mut accounts, &list_payload(500)).unwrap();
    let item_account = accounts.remove(1);
    let mut accounts = vec![
        wallet(BUYER, 5_000_000_000, false),
        item_account,
        wallet(PAYER, 0, false),
        wallet(SYSTEM, 0, false),
    ];
    let r = process_instruction(&program_id, &mut accounts, &[1u8]);
    assert_eq!(r, Err(ProgramError::MissingRequiredSignature));
    // No transfer happened and the listing stayed active.
    assert_eq!(accounts[0].lamports, 5_000_000_000);
    assert_eq!(accounts[2].lamports, 0);
    assert_eq!(accounts[1].data[41], 1);
}

#[test]
fn unsigned_lister_rejected() {
    let program_id = key(PROGRAM);
    let mut accounts = vec![
        wallet(PAYER, 2_000_000_000, false),
        fresh_item_account(ITEM),
        wallet(SYSTEM, 0, false),
        wallet(SYSTEM, 0, false),
    ];
    let r = process_instruction(&program_id, &mut accounts, &list_payload(500));
    assert_eq!(r, Err(ProgramError::MissingRequiredSignature));
    assert_eq!(accounts[1].data.len(), 0);
}

#[test]
fn list_on_account_in_use_rejected() {
    let program_id = key(PROGRAM);
    let mut accounts = vec![
        wallet(PAYER, 2_000_000_000, true),
        wallet(ITEM, 5, false),
        wallet(SYSTEM, 0, false),
        wallet(SYSTEM, 0, false),
    ];
    let r = process_instruction(&program_id, &mut accounts, &list_payload(500));
    assert_eq!(r, Err(ProgramError::AccountAlreadyInUse));
    assert_eq!(accounts[0].lamports, 2_000_000_000);
    assert_eq!(accounts[1].lamports, 5);
}

#[test]
fn list_with_poor_payer_rejected() {
    let program_id = key(PROGRAM);
    let mut accounts = vec![
        wallet(PAYER, 100, true),
        fresh_item_account(ITEM),
        wallet(SYSTEM, 0, false),
        wallet(SYSTEM, 0, false),
    ];
    let r = process_instruction(&program_id, &mut accounts, &list_payload(500));
    assert_eq!(r, Err(ProgramError::InsufficientFunds));
    assert_eq!(accounts[0].lamports, 100);
    assert_eq!(accounts[1].data.len(), 0);
}

#[test]
fn too_few_accounts_rejected() {
    let program_id = key(PROGRAM);
    let mut accounts = vec![
        wallet(PAYER, 2_000_000_000, true),
        fresh_item_account(ITEM),
        wallet(SYSTEM, 0, false),
    ];
    let r = process_instruction(&program_id, &mut accounts, &list_payload(500));
    assert_eq!(r, Err(ProgramError::NotEnoughAccountKeys));
    assert_eq!(accounts.len(), 3);
}

#[test]
fn insufficient_funds_on_plain_transfer() {
    let mut from = wallet(PAYER, 100, true);
    let mut to = wallet(BUYER, 0, false);
    let r = transfer_sol(&mut from, &mut to, 200);
    assert_eq!(r, Err(ProgramError::InsufficientFunds));
    assert_eq!(from.lamports, 100);
    assert_eq!(to.lamports, 0);
}

#[test]
fn transfer_through_dispatcher() {
    let program_id = key(PROGRAM);
    let mut accounts = vec![
        wallet(PAYER, 1_000, true),
        wallet(BUYER, 10, false),
        wallet(SYSTEM, 0, false),
        wallet(SYSTEM, 0, false),
    ];
    let r = process_instruction(&program_id, &mut accounts, &transfer_payload(400));
    assert_eq!(r, Ok(()));
    assert_eq!(accounts[0].lamports, 600);
    assert_eq!(accounts[1].lamports, 410);
}

#[test]
fn truncated_transfer_payload_rejected() {
    let program_id = key(PROGRAM);
    let mut accounts = vec![
        wallet(PAYER, 1_000, true),
        wallet(BUYER, 10, false),
        wallet(SYSTEM, 0, false),
        wallet(SYSTEM, 0, false),
    ];
    let r = process_instruction(&program_id, &mut accounts, &[0x02, 0x01]);
    assert_eq!(r, Err(ProgramError::InvalidInstructionData));
    assert_eq!(accounts[0].lamports, 1_000);
    assert_eq!(accounts[1].lamports, 10);
}

#[test]
fn trailing_payload_bytes_ignored() {
    let program_id = key(PROGRAM);
    let mut accounts = vec![
        wallet(PAYER, 2_000_000_000, true),
        fresh_item_account(ITEM),
        wallet(SYSTEM, 0, false),
        wallet(SYSTEM, 0, false),
    ];
    let mut payload = list_payload(500);
    payload.extend_from_slice(&[0xde, 0xad]);
    let r = process_instruction(&program_id, &mut accounts, &payload);
    assert_eq!(r, Ok(()));

    let item_account = accounts.remove(1);
    let mut accounts = vec![
        wallet(BUYER, 1_000, true),
        item_account,
        wallet(PAYER, 0, false),
        wallet(SYSTEM, 0, false),
    ];
    let r = process_instruction(&program_id, &mut accounts, &[1u8, 0x77]);
    assert_eq!(r, Ok(()));
    assert_eq!(accounts[1].data[41], 0);
}

#[test]
fn transfer_overflow_rejected() {
    let mut from = wallet(PAYER, 500, true);
    let mut to = wallet(BUYER, u64::MAX - 10, false);
    let r = transfer_sol(&mut from, &mut to, 100);
    assert_eq!(r, Err(ProgramError::ArithmeticOverflow));
    assert_eq!(from.lamports, 500);
    assert_eq!(to.lamports, u64::MAX - 10);
}
