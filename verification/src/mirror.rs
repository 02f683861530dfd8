//! The off-chain document-store mirror's record shape.
//!
//! A client indexer persists each listing as a flat document
//! `{is_initialized, seller, price, is_active}` with the seller rendered in
//! base58.  This module holds the value-level conversions between a record
//! and that shape; the store itself is an external collaborator, and the
//! account buffer stays authoritative.
use vstd::prelude::*;
use crate::accounts::Pubkey;
use crate::marketplace_item::MarketplaceItem;

verus! {

/// The base58 rendering of a 32-byte account identifier.
pub uninterp spec fn base58_of(key: Seq<u8>) -> Seq<char>;

/// The 32 bytes whose base58 rendering a string is, if it is one.
pub uninterp spec fn key_of_base58(s: Seq<char>) -> Option<Seq<u8>>;

/// Relies on the `Display` impl of `solana_program::pubkey::Pubkey`, which
/// writes the base58 rendering of the 32 key bytes and nothing else.
#[verifier::external_body]
fn encode_key(key: &Pubkey) -> (r: String)
    ensures
        r@ == base58_of(key@),
{
    solana_program::pubkey::Pubkey::new_from_array(key.bytes).to_string()
}

/// Relies on `solana_program::pubkey::Pubkey::from_str`, which decodes a
/// base58 string of at most 44 characters into exactly 32 bytes, or fails;
/// the result depends on the characters alone.
#[verifier::external_body]
fn decode_key(s: &str) -> (r: Option<Pubkey>)
    ensures
        r is Some <==> key_of_base58(s@) is Some,
        r matches Some(k) ==> key_of_base58(s@) == Some(k@),
{
    match <solana_program::pubkey::Pubkey as core::str::FromStr>::from_str(s) {
        Ok(p) => Some(Pubkey { bytes: p.to_bytes() }),
        Err(_) => None,
    }
}

/// One listing as the document store holds it.
#[derive(Clone, Debug)]
pub struct MirrorRecord {
    pub is_initialized: bool,
    /// The seller's key in base58.
    pub seller: String,
    /// The price as the store's signed 64-bit integer.
    pub price: i64,
    pub is_active: bool,
}

/// The document shape for a record, seller rendered in base58 and the price
/// reinterpreted as the store's signed 64-bit integer.
pub fn mirror_record_of(item: &MarketplaceItem) -> (r: MirrorRecord)
    ensures
        r.is_initialized == item.is_initialized,
        r.seller@ == base58_of(item.seller@),
        r.price == item.price as i64,
        r.is_active == item.is_active,
{
    MirrorRecord {
        is_initialized: item.is_initialized,
        seller: encode_key(&item.seller),
        price: #[verifier::truncate] (item.price as i64),
        is_active: item.is_active,
    }
}

/// Reads a stored document back into a record.  Fails exactly when the
/// seller string is not the base58 rendering of a 32-byte key.
pub fn item_of_mirror_record(rec: &MirrorRecord) -> (r: Option<MarketplaceItem>)
    ensures
        r is Some <==> key_of_base58(rec.seller@) is Some,
        r matches Some(item) ==> item.is_initialized == rec.is_initialized && Some(item.seller@)
            == key_of_base58(rec.seller@) && item.price == rec.price as u64 && item.is_active
            == rec.is_active,
{
    match decode_key(rec.seller.as_str()) {
        Some(key) => Some(
            MarketplaceItem {
                is_initialized: rec.is_initialized,
                seller: key,
                price: #[verifier::truncate] (rec.price as u64),
                is_active: rec.is_active,
            },
        ),
        None => None,
    }
}

} // verus!
