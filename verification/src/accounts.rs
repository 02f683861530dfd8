//! Plain-value model of the host's account handles.
//!
//! The host hands an on-chain program a vector of account handles: each has a
//! 32-byte identifier, a lamport balance, an owner, a fixed-capacity data
//! region, and a flag saying whether its key signed the enclosing
//! transaction.  The handlers in this crate read and mutate values of this
//! model; the thin adapter around the crate converts the host's handles to
//! and from it.
use vstd::prelude::*;

verus! {

/// A 32-byte account identifier.
#[derive(Clone, Copy, Debug)]
pub struct Pubkey {
    pub bytes: [u8; 32],
}

impl View for Pubkey {
    type V = Seq<u8>;

    open spec fn view(&self) -> Seq<u8> {
        self.bytes@
    }
}

/// One account handle, as a handler sees it.
#[derive(Debug)]
pub struct Account {
    /// The account's address.
    pub key: Pubkey,
    /// Balance in the chain's smallest value unit.
    pub lamports: u64,
    /// The account's data region.
    pub data: Vec<u8>,
    /// The program that owns the account and may write its data.
    pub owner: Pubkey,
    /// Whether this account's key signed the enclosing transaction.
    pub is_signer: bool,
}

/// An account that the system service would regard as not yet created:
/// it holds no lamports and no data.
pub open spec fn account_in_use(a: Account) -> bool {
    a.lamports > 0 || a.data@.len() > 0
}

} // verus!
