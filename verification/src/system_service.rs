//! The system service, the host's primitive-operation program.
//!
//! Account creation and lamport transfer are not local operations on chain:
//! they are synchronous cross-program invocations that the host executes
//! atomically.  This module gives the handlers those primitives over the
//! plain-value account model, with their documented effects; rent sizing is
//! taken from the rent parameters of `solana_program`.
use vstd::prelude::*;
use crate::accounts::{account_in_use, Account, Pubkey};
use crate::errors::ProgramError;

verus! {

/// The lamport balance at which an account of `size` data bytes is exempt
/// from rent collection, under the default rent parameters.
pub uninterp spec fn rent_exempt_minimum(size: int) -> u64;

/// Relies on `solana_program::rent::Rent::minimum_balance` with the default
/// rent parameters: for a permitted data length the result is computed from
/// the length and the default parameters alone, without panicking.
#[verifier::external_body]
pub(crate) fn rent_minimum(size: usize) -> (r: u64)
    requires
        size <= 10 * 1024 * 1024,
    ensures
        r == rent_exempt_minimum(size as int),
{
    solana_program::rent::Rent::default().minimum_balance(size)
}

/// Creates `new_account`: moves `lamports` from the funder into it,
/// allocates `space` zeroed data bytes, and assigns ownership to `owner`.
///
/// Mirrors the system service's create-account operation: it refuses an
/// account that already holds lamports or data, then refuses a funder whose
/// balance is short.
pub fn create_account(
    funder: &mut Account,
    new_account: &mut Account,
    lamports: u64,
    space: usize,
    owner: &Pubkey,
) -> (r: Result<(), ProgramError>)
    ensures
        r is Ok <==> !account_in_use(*old(new_account)) && old(funder).lamports >= lamports,
        account_in_use(*old(new_account)) ==> r == Err::<(), ProgramError>(
            ProgramError::AccountAlreadyInUse,
        ),
        !account_in_use(*old(new_account)) && old(funder).lamports < lamports ==> r == Err::<
            (),
            ProgramError,
        >(ProgramError::InsufficientFunds),
        r is Err ==> *final(funder) == *old(funder) && *final(new_account) == *old(new_account),
        r is Ok ==> *final(funder) == (Account {
            lamports: (old(funder).lamports - lamports) as u64,
            ..*old(funder)
        }),
        r is Ok ==> final(new_account).key == old(new_account).key
            && final(new_account).is_signer == old(new_account).is_signer
            && final(new_account).lamports == lamports && final(new_account).owner@ == owner@
            && final(new_account).data@ == Seq::new(space as nat, |i: int| 0u8),
{
    if new_account.lamports > 0 || new_account.data.len() > 0 {
        return Err(ProgramError::AccountAlreadyInUse);
    }
    if funder.lamports < lamports {
        return Err(ProgramError::InsufficientFunds);
    }
    funder.lamports = funder.lamports - lamports;
    new_account.lamports = lamports;
    new_account.data = vec_of_zeros(space);
    new_account.owner = *owner;
    Ok(())
}

/// A zero-initialized data region, as the host allocates it.
fn vec_of_zeros(space: usize) -> (r: Vec<u8>)
    ensures
        r@ == Seq::new(space as nat, |i: int| 0u8),
{
    let mut v: Vec<u8> = Vec::new();
    let mut i: usize = 0;
    while i < space
        invariant
            i <= space,
            v@.len() == i,
            forall|j: int| 0 <= j < i ==> v@[j] == 0u8,
        decreases space - i,
    {
        v.push(0u8);
        i = i + 1;
    }
    proof {
        assert(v@ =~= Seq::new(space as nat, |j: int| 0u8));
    }
    v
}

/// Moves `amount` lamports from one account to another.
///
/// Mirrors the system service's transfer: it refuses a sender whose balance
/// is short, and a receiver whose balance would overflow.
pub fn transfer(from: &mut Account, to: &mut Account, amount: u64) -> (r: Result<
    (),
    ProgramError,
>)
    ensures
        r is Ok <==> old(from).lamports >= amount && old(to).lamports + amount <= u64::MAX,
        old(from).lamports < amount ==> r == Err::<(), ProgramError>(
            ProgramError::InsufficientFunds,
        ),
        old(from).lamports >= amount && old(to).lamports + amount > u64::MAX ==> r == Err::<
            (),
            ProgramError,
        >(ProgramError::ArithmeticOverflow),
        r is Err ==> *final(from) == *old(from) && *final(to) == *old(to),
        r is Ok ==> *final(from) == (Account {
            lamports: (old(from).lamports - amount) as u64,
            ..*old(from)
        }),
        r is Ok ==> *final(to) == (Account {
            lamports: (old(to).lamports + amount) as u64,
            ..*old(to)
        }),
{
    if from.lamports < amount {
        return Err(ProgramError::InsufficientFunds);
    }
    if amount > u64::MAX - to.lamports {
        return Err(ProgramError::ArithmeticOverflow);
    }
    from.lamports = from.lamports - amount;
    to.lamports = to.lamports + amount;
    Ok(())
}

} // verus!
