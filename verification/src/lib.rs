//! A minimal on-chain marketplace program, verified.
//!
//! A seller lists a single item at a fixed price; a buyer atomically pays the
//! seller and the listing is marked sold.  The crate covers the fixed-layout
//! record codec, the instruction dispatcher, the `list` / `buy` / plain
//! transfer handlers, and a model of the host's system service (account
//! creation, lamport movement, rent sizing).
use vstd::prelude::*;

pub mod accounts;
pub mod errors;
pub mod handlers;
pub mod instruction;
pub mod marketplace_item;
pub mod mirror;
pub mod system_service;

use crate::accounts::{Account, Pubkey};
use crate::errors::ProgramError;
use crate::handlers::{
    buy_item, buy_transition, list_item, list_transition, transfer_sol, transfer_transition,
};
use crate::instruction::{parse_instruction, parse_of, MarketplaceInstruction};

verus! {

/// The accounts from position `k` on are exactly as they were.
pub open spec fn untouched_from(pre: Seq<Account>, post: Seq<Account>, k: int) -> bool {
    forall|i: int| k <= i < pre.len() ==> post[i] == pre[i]
}

/// The program's single entry point.
///
/// Parses the opcode from the payload, then requires the first account's
/// signature, then dispatches.  The account vector is positional:
///
/// * opcode `0` (list): `[payer, item_account, _unused, system_service]`;
/// * opcode `1` (buy): `[buyer, item_account, seller, system_service]`;
/// * opcode `2` (transfer): `[from, to, _unused, system_service]`.
///
/// A rejected payload or a missing signature leaves every account untouched;
/// the system service handle at position 3 is never touched.
pub fn process_instruction(
    program_id: &Pubkey,
    accounts: &mut Vec<Account>,
    instruction_data: &[u8],
) -> (r: Result<(), ProgramError>)
    ensures
        final(accounts)@.len() == old(accounts)@.len(),
        parse_of(instruction_data@) matches Err(e) ==> r == Err::<(), ProgramError>(e)
            && final(accounts)@ == old(accounts)@,
        parse_of(instruction_data@) is Ok && old(accounts)@.len() < 4 ==> r
            == Err::<(), ProgramError>(ProgramError::NotEnoughAccountKeys)
            && final(accounts)@ == old(accounts)@,
        parse_of(instruction_data@) is Ok && old(accounts)@.len() >= 4
            && !old(accounts)@[0].is_signer ==> r
            == Err::<(), ProgramError>(ProgramError::MissingRequiredSignature)
            && final(accounts)@ == old(accounts)@,
        parse_of(instruction_data@) matches Ok(MarketplaceInstruction::List { price }) ==> (old(
            accounts,
        )@.len() >= 4 && old(accounts)@[0].is_signer ==> list_transition(
            old(accounts)@[0],
            final(accounts)@[0],
            old(accounts)@[1],
            final(accounts)@[1],
            program_id@,
            price,
            r,
        ) && final(accounts)@[2] == old(accounts)@[2]
            && untouched_from(old(accounts)@, final(accounts)@, 3)),
        parse_of(instruction_data@)
            == Ok::<MarketplaceInstruction, ProgramError>(MarketplaceInstruction::Buy)
            && old(accounts)@.len() >= 4 && old(accounts)@[0].is_signer ==> buy_transition(
            old(accounts)@[0],
            final(accounts)@[0],
            old(accounts)@[2],
            final(accounts)@[2],
            old(accounts)@[1],
            final(accounts)@[1],
            r,
        ) && untouched_from(old(accounts)@, final(accounts)@, 3),
        parse_of(instruction_data@) matches Ok(MarketplaceInstruction::Transfer { amount }) ==> (
        old(accounts)@.len() >= 4 && old(accounts)@[0].is_signer ==> transfer_transition(
            old(accounts)@[0],
            final(accounts)@[0],
            old(accounts)@[1],
            final(accounts)@[1],
            amount,
            r,
        ) && final(accounts)@[2] == old(accounts)@[2]
            && untouched_from(old(accounts)@, final(accounts)@, 3)),
{
    let instr = match parse_instruction(instruction_data) {
        Ok(instr) => instr,
        Err(e) => {
            return Err(e);
        },
    };
    if accounts.len() < 4 {
        return Err(ProgramError::NotEnoughAccountKeys);
    }
    if !accounts[0].is_signer {
        return Err(ProgramError::MissingRequiredSignature);
    }
    let ghost pre = accounts@;
    let mut authority = accounts.remove(0);
    let mut second = accounts.remove(0);
    let mut third = accounts.remove(0);
    let ghost rest = accounts@;
    proof {
        assert forall|i: int| 0 <= i < rest.len() implies rest[i] == pre[i + 3] by {
            assert(rest[i] == pre.remove(0).remove(0)[i + 1]);
            assert(pre.remove(0).remove(0)[i + 1] == pre.remove(0)[i + 2]);
            assert(pre.remove(0)[i + 2] == pre[i + 3]);
        }
    }
    let r = match instr {
        MarketplaceInstruction::List { price } => list_item(
            program_id,
            &mut authority,
            &mut second,
            price,
        ),
        MarketplaceInstruction::Buy => buy_item(&mut authority, &mut third, &mut second),
        MarketplaceInstruction::Transfer { amount } => transfer_sol(
            &mut authority,
            &mut second,
            amount,
        ),
    };
    accounts.insert(0, third);
    accounts.insert(0, second);
    accounts.insert(0, authority);
    proof {
        assert(accounts@.len() == pre.len());
        assert forall|i: int| 3 <= i < pre.len() implies accounts@[i] == pre[i] by {
            assert(accounts@[i] == rest[i - 3]);
        }
    }
    r
}

} // verus!
