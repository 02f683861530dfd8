//! The state-mutating action handlers.
//!
//! Each handler validates the signer and the record's lifecycle state, calls
//! the system service for account creation or lamport movement, and writes
//! the record back through the codec.  Every pre-flight validation precedes
//! the first effect, so a handler that fails leaves every account exactly as
//! it found it.
use vstd::prelude::*;
use vstd::bytes::spec_u64_to_le_bytes;
use crate::accounts::{account_in_use, Account, Pubkey};
use crate::errors::ProgramError;
use crate::marketplace_item::{item_of_bytes, packed_prefix, ItemView, MarketplaceItem};
use crate::system_service::{create_account, rent_exempt_minimum, rent_minimum, transfer};

verus! {

/// The inputs on which a `list` succeeds: the payer signed, the item account
/// is not yet in use, and the payer can fund the rent-exempt minimum for the
/// declared record length.
pub open spec fn list_succeeds(payer: Account, item_account: Account) -> bool {
    &&& payer.is_signer
    &&& !account_in_use(item_account)
    &&& payer.lamports >= rent_exempt_minimum(73)
}

/// The item account that a successful `list` leaves behind: funded to the
/// rent-exempt minimum, owned by this program, 73 data bytes of which the
/// first 42 hold the packed active listing and the rest stay zero.
pub open spec fn listed_item_account(
    pre: Account,
    post: Account,
    seller: Seq<u8>,
    price: u64,
    program: Seq<u8>,
) -> bool {
    &&& post.key == pre.key
    &&& post.is_signer == pre.is_signer
    &&& post.owner@ == program
    &&& post.lamports == rent_exempt_minimum(73)
    &&& post.data@.len() == 73
    &&& post.data@.subrange(0, 42) == packed_prefix(
        ItemView { is_initialized: true, seller, price, is_active: true },
    )
    &&& forall|i: int| 42 <= i < 73 ==> post.data@[i] == 0
}

/// After a successful `list`, the account's bytes read exactly: first byte
/// `1`, bytes 1..33 the seller's key, bytes 33..41 the price little-endian,
/// byte 41 `1`, and the reserved bytes 42..73 zero.
pub proof fn lemma_listed_account_bytes(
    pre: Account,
    post: Account,
    seller: Seq<u8>,
    price: u64,
    program: Seq<u8>,
)
    requires
        seller.len() == 32,
        listed_item_account(pre, post, seller, price, program),
    ensures
        post.data@.len() == 73,
        post.data@[0] == 1,
        post.data@.subrange(1, 33) == seller,
        post.data@.subrange(33, 41) == spec_u64_to_le_bytes(price),
        post.data@[41] == 1,
        forall|i: int| 42 <= i < 73 ==> post.data@[i] == 0,
{
    let v = ItemView { is_initialized: true, seller, price, is_active: true };
    let p = packed_prefix(v);
    crate::marketplace_item::lemma_packed_prefix_index(v);
    assert forall|i: int| 0 <= i < 42 implies post.data@[i] == p[i] by {
        assert(post.data@.subrange(0, 42)[i] == post.data@[i]);
    }
    assert forall|i: int| 0 <= i < 32 implies #[trigger] post.data@.subrange(1, 33)[i]
        == seller[i] by {
        assert(post.data@.subrange(1, 33)[i] == post.data@[1 + i]);
        assert(p[1 + i] == seller[i]);
    }
    assert(post.data@.subrange(1, 33) =~= seller);
    assert forall|i: int| 0 <= i < 8 implies #[trigger] post.data@.subrange(33, 41)[i]
        == spec_u64_to_le_bytes(price)[i] by {
        assert(post.data@.subrange(33, 41)[i] == post.data@[33 + i]);
        assert(p[33 + i] == spec_u64_to_le_bytes(price)[i]);
    }
    assert(post.data@.subrange(33, 41) =~= spec_u64_to_le_bytes(price));
}

/// Everything `list_item` promises, over the payer and item account before
/// and after the call.
pub open spec fn list_transition(
    payer_pre: Account,
    payer_post: Account,
    item_pre: Account,
    item_post: Account,
    program: Seq<u8>,
    price: u64,
    r: Result<(), ProgramError>,
) -> bool {
    &&& (r is Ok <==> list_succeeds(payer_pre, item_pre))
    &&& (r is Ok ==> listed_item_account(item_pre, item_post, payer_pre.key@, price, program))
    &&& (r is Ok ==> payer_post == (Account {
        lamports: (payer_pre.lamports - rent_exempt_minimum(73)) as u64,
        ..payer_pre
    }))
    &&& (!payer_pre.is_signer ==> r == Err::<(), ProgramError>(
        ProgramError::MissingRequiredSignature,
    ))
    &&& (payer_pre.is_signer && account_in_use(item_pre) ==> r == Err::<(), ProgramError>(
        ProgramError::AccountAlreadyInUse,
    ))
    &&& (payer_pre.is_signer && !account_in_use(item_pre) && payer_pre.lamports
        < rent_exempt_minimum(73) ==> r == Err::<(), ProgramError>(ProgramError::InsufficientFunds))
    &&& (r is Err ==> payer_post == payer_pre && item_post == item_pre)
}

/// Lists an item: creates the item account at the rent-exempt minimum for 73
/// bytes, assigns it to this program, and packs the record
/// `{is_initialized: true, seller: payer.key, price, is_active: true}`.
pub fn list_item(
    program_id: &Pubkey,
    payer: &mut Account,
    item_account: &mut Account,
    price: u64,
) -> (r: Result<(), ProgramError>)
    ensures
        list_transition(
            *old(payer),
            *final(payer),
            *old(item_account),
            *final(item_account),
            program_id@,
            price,
            r,
        ),
{
    if !payer.is_signer {
        return Err(ProgramError::MissingRequiredSignature);
    }
    let rent_exemption = rent_minimum(MarketplaceItem::LEN);
    match create_account(payer, item_account, rent_exemption, MarketplaceItem::LEN, program_id) {
        Ok(()) => (),
        Err(e) => {
            return Err(e);
        },
    }
    let item = MarketplaceItem {
        is_initialized: true,
        seller: payer.key,
        price,
        is_active: true,
    };
    item.pack_into_slice(&mut item_account.data);
    Ok(())
}

/// Creation is one-shot: a `list` whose call meets `list_item`'s contract
/// is refused as soon as the item account holds any data (or lamports), so
/// an existing record can never be overwritten by a second `list`.
pub proof fn lemma_no_relist(
    payer_pre: Account,
    payer_post: Account,
    item_pre: Account,
    item_post: Account,
    program: Seq<u8>,
    price: u64,
    r: Result<(), ProgramError>,
)
    requires
        account_in_use(item_pre),
        list_transition(payer_pre, payer_post, item_pre, item_post, program, price, r),
    ensures
        r is Err,
        item_post == item_pre,
        payer_post == payer_pre,
{
}

/// A record in the buyable state: long enough to decode, initialized, and
/// still active.
pub open spec fn item_record_live(data: Seq<u8>) -> bool {
    &&& data.len() >= 73
    &&& item_of_bytes(data).is_initialized
    &&& item_of_bytes(data).is_active
}

/// The inputs on which a `buy` succeeds: the buyer signed, the record is
/// live, the buyer can pay its price, and the seller's balance can take it.
pub open spec fn buy_succeeds(buyer: Account, seller: Account, item_account: Account) -> bool {
    &&& buyer.is_signer
    &&& item_record_live(item_account.data@)
    &&& buyer.lamports >= item_of_bytes(item_account.data@).price
    &&& seller.lamports + item_of_bytes(item_account.data@).price <= u64::MAX
}

/// Everything `buy_item` promises, over the three accounts before and after
/// the call.
pub open spec fn buy_transition(
    buyer_pre: Account,
    buyer_post: Account,
    seller_pre: Account,
    seller_post: Account,
    item_pre: Account,
    item_post: Account,
    r: Result<(), ProgramError>,
) -> bool {
    let price = item_of_bytes(item_pre.data@).price;
    &&& (r is Ok <==> buy_succeeds(buyer_pre, seller_pre, item_pre))
    &&& (r is Ok ==> buyer_post == (Account {
        lamports: (buyer_pre.lamports - price) as u64,
        ..buyer_pre
    }))
    &&& (r is Ok ==> seller_post == (Account {
        lamports: (seller_pre.lamports + price) as u64,
        ..seller_pre
    }))
    &&& (r is Ok ==> item_post.key == item_pre.key && item_post.is_signer == item_pre.is_signer
        && item_post.owner == item_pre.owner && item_post.lamports == item_pre.lamports
        && item_post.data@.len() == item_pre.data@.len() && item_post.data@.subrange(0, 42)
        == packed_prefix(ItemView { is_active: false, ..item_of_bytes(item_pre.data@) }) && (
    forall|i: int| 42 <= i < item_pre.data@.len() ==> item_post.data@[i] == item_pre.data@[i]))
    &&& (!buyer_pre.is_signer ==> r == Err::<(), ProgramError>(
        ProgramError::MissingRequiredSignature,
    ))
    &&& (buyer_pre.is_signer && !item_record_live(item_pre.data@) ==> r == Err::<(), ProgramError>(
        ProgramError::InvalidAccountData,
    ))
    &&& (buyer_pre.is_signer && item_record_live(item_pre.data@) && buyer_pre.lamports < price
        ==> r == Err::<(), ProgramError>(ProgramError::InsufficientFunds))
    &&& (buyer_pre.is_signer && item_record_live(item_pre.data@) && buyer_pre.lamports >= price
        && seller_pre.lamports + price > u64::MAX ==> r == Err::<(), ProgramError>(
        ProgramError::ArithmeticOverflow,
    ))
    &&& (r is Err ==> buyer_post == buyer_pre && seller_post == seller_pre && item_post == item_pre)
}

/// Buys the listed item: pays the record's price from the buyer to the
/// seller account supplied by the caller, then clears `is_active`.
///
/// The record is only flipped after the transfer succeeded; a record that is
/// uninitialized, already sold, or too short to decode is refused with
/// `InvalidAccountData`.  Note that the supplied seller account is not
/// checked against the record's seller field: the caller chooses where the
/// payment goes, as the contract's `buy_transition` makes explicit.
pub fn buy_item(buyer: &mut Account, seller: &mut Account, item_account: &mut Account) -> (r:
    Result<(), ProgramError>)
    ensures
        buy_transition(
            *old(buyer),
            *final(buyer),
            *old(seller),
            *final(seller),
            *old(item_account),
            *final(item_account),
            r,
        ),
{
    if !buyer.is_signer {
        return Err(ProgramError::MissingRequiredSignature);
    }
    let mut item = match MarketplaceItem::unpack_from_slice(item_account.data.as_slice()) {
        Ok(item) => item,
        Err(e) => {
            return Err(e);
        },
    };
    if !item.is_active || !item.is_initialized {
        return Err(ProgramError::InvalidAccountData);
    }
    match transfer(buyer, seller, item.price) {
        Ok(()) => (),
        Err(e) => {
            return Err(e);
        },
    }
    item.is_active = false;
    item.pack_into_slice(&mut item_account.data);
    proof {
        assert(item@ =~= (ItemView {
            is_active: false,
            ..item_of_bytes(old(item_account).data@)
        }));
    }
    Ok(())
}

/// After a successful `buy` on a record that began as the output of the
/// codec, byte 41 becomes `0` and every other byte keeps its value.
///
/// `pre` is the item data before the buy, `post` after; the hypotheses are
/// exactly what `buy_transition` gives for the item account on success.
/// On a buffer whose boolean bytes are not canonical (say a first byte of
/// `2`), the repack normalizes them, so the claim is restricted to buffers
/// in packed form.
pub proof fn lemma_buy_flips_only_active(pre: Seq<u8>, post: Seq<u8>)
    requires
        pre.len() >= 73,
        post.len() == pre.len(),
        pre.subrange(0, 42) == packed_prefix(item_of_bytes(pre)),
        post.subrange(0, 42) == packed_prefix(ItemView { is_active: false, ..item_of_bytes(pre) }),
        forall|i: int| 42 <= i < pre.len() ==> post[i] == pre[i],
    ensures
        post[41] == 0,
        forall|i: int| 0 <= i < pre.len() && i != 41 ==> post[i] == pre[i],
{
    let v = item_of_bytes(pre);
    let w = ItemView { is_active: false, ..v };
    crate::marketplace_item::lemma_packed_prefix_index(v);
    crate::marketplace_item::lemma_packed_prefix_index(w);
    assert forall|i: int| 0 <= i < 42 implies post[i] == packed_prefix(w)[i] by {
        assert(post.subrange(0, 42)[i] == post[i]);
    }
    assert forall|i: int| 0 <= i < 42 implies pre[i] == packed_prefix(v)[i] by {
        assert(pre.subrange(0, 42)[i] == pre[i]);
    }
    assert forall|i: int| 0 <= i < 42 && i != 41 implies post[i] == pre[i] by {
        assert(packed_prefix(w)[0] == packed_prefix(v)[0]);
        assert(forall|j: int| 1 <= j < 33 ==> packed_prefix(w)[j] == packed_prefix(v)[j]);
        assert(forall|j: int| 33 <= j < 41 ==> packed_prefix(w)[j] == packed_prefix(v)[j]);
    }
}

/// A record left behind by a successful `buy` is inactive, so any second
/// `buy` whose call meets `buy_item`'s contract is refused with
/// `InvalidAccountData`, whatever the buyer's and seller's balances.
pub proof fn lemma_double_buy_rejected(
    sold: Account,
    buyer_pre: Account,
    buyer_post: Account,
    seller_pre: Account,
    seller_post: Account,
    item_post: Account,
    r: Result<(), ProgramError>,
)
    requires
        sold.data@.len() >= 73,
        sold.data@.subrange(0, 42) == packed_prefix(
            ItemView { is_active: false, ..item_of_bytes(sold.data@) },
        ),
        buyer_pre.is_signer,
        buy_transition(buyer_pre, buyer_post, seller_pre, seller_post, sold, item_post, r),
    ensures
        r == Err::<(), ProgramError>(ProgramError::InvalidAccountData),
        item_post == sold,
{
    let w = ItemView { is_active: false, ..item_of_bytes(sold.data@) };
    assert(w.wf());
    crate::marketplace_item::lemma_unpack_of_packed(w, sold.data@);
    assert(!item_of_bytes(sold.data@).is_active);
    assert(!item_record_live(sold.data@));
}

/// Everything `transfer_sol` promises, over the two accounts before and
/// after the call.
pub open spec fn transfer_transition(
    from_pre: Account,
    from_post: Account,
    to_pre: Account,
    to_post: Account,
    amount: u64,
    r: Result<(), ProgramError>,
) -> bool {
    &&& (r is Ok <==> from_pre.is_signer && from_pre.lamports >= amount && to_pre.lamports + amount
        <= u64::MAX)
    &&& (r is Ok ==> from_post == (Account {
        lamports: (from_pre.lamports - amount) as u64,
        ..from_pre
    }))
    &&& (r is Ok ==> to_post == (Account {
        lamports: (to_pre.lamports + amount) as u64,
        ..to_pre
    }))
    &&& (!from_pre.is_signer ==> r == Err::<(), ProgramError>(
        ProgramError::MissingRequiredSignature,
    ))
    &&& (from_pre.is_signer && from_pre.lamports < amount ==> r == Err::<(), ProgramError>(
        ProgramError::InsufficientFunds,
    ))
    &&& (from_pre.is_signer && from_pre.lamports >= amount && to_pre.lamports + amount > u64::MAX
        ==> r == Err::<(), ProgramError>(ProgramError::ArithmeticOverflow))
    &&& (r is Err ==> from_post == from_pre && to_post == to_pre)
}

/// Moves `amount` lamports from the sender to the receiver.  The sender must
/// have signed; a balance below `amount` is refused with
/// `InsufficientFunds` before the system service is invoked.
pub fn transfer_sol(from: &mut Account, to: &mut Account, amount: u64) -> (r: Result<
    (),
    ProgramError,
>)
    ensures
        transfer_transition(*old(from), *final(from), *old(to), *final(to), amount, r),
{
    if !from.is_signer {
        return Err(ProgramError::MissingRequiredSignature);
    }
    let sender_balance = from.lamports;
    if sender_balance < amount {
        return Err(ProgramError::InsufficientFunds);
    }
    transfer(from, to, amount)
}

} // verus!
