//! The marketplace's persistent record and its fixed-layout codec.
//!
//! A listing is stored in the data region of one externally owned account.
//! The declared record length is 73 bytes; only the first 42 are serialized:
//!
//! | field          | offset | width |
//! |----------------|--------|-------|
//! | is_initialized | 0      | 1     |
//! | seller         | 1      | 32    |
//! | price (LE)     | 33     | 8     |
//! | is_active      | 41     | 1     |
//!
//! Bytes 42..73 are reserved padding: the codec never touches them.
use vstd::prelude::*;
use vstd::bytes::{
    lemma_auto_spec_u64_to_from_le_bytes, spec_u64_from_le_bytes, spec_u64_to_le_bytes,
    u64_from_le_bytes, u64_to_le_bytes,
};
use vstd::slice::slice_subrange;
use crate::accounts::Pubkey;
use crate::errors::ProgramError;

verus! {

/// A single listing: one seller offers one item at a fixed price.
#[derive(Clone, Copy, Debug)]
pub struct MarketplaceItem {
    /// True once a successful `list` action has written the record.
    pub is_initialized: bool,
    /// The account that signed the `list` action; fixed thereafter.
    pub seller: Pubkey,
    /// Price in the chain's smallest value unit.
    pub price: u64,
    /// True while the listing is purchasable; a `buy` clears it for good.
    pub is_active: bool,
}

/// The mathematical value of a record, with the seller as a byte sequence.
#[verifier::ext_equal]
pub struct ItemView {
    pub is_initialized: bool,
    pub seller: Seq<u8>,
    pub price: u64,
    pub is_active: bool,
}

impl ItemView {
    /// A view that could come out of a real record: the seller is 32 bytes.
    pub open spec fn wf(self) -> bool {
        self.seller.len() == 32
    }
}

impl View for MarketplaceItem {
    type V = ItemView;

    open spec fn view(&self) -> ItemView {
        ItemView {
            is_initialized: self.is_initialized,
            seller: self.seller.bytes@,
            price: self.price,
            is_active: self.is_active,
        }
    }
}

/// How the codec writes a boolean: `1` for true, `0` for false.
pub open spec fn bool_byte(b: bool) -> u8 {
    if b {
        1u8
    } else {
        0u8
    }
}

/// The 42 bytes that `pack_into_slice` writes for a view `v`.
pub open spec fn packed_prefix(v: ItemView) -> Seq<u8> {
    seq![bool_byte(v.is_initialized)] + v.seller + spec_u64_to_le_bytes(v.price) + seq![
        bool_byte(v.is_active),
    ]
}

/// The view that `unpack_from_slice` reads out of a buffer.  Any non-zero
/// byte in a boolean position decodes to true.
pub open spec fn item_of_bytes(s: Seq<u8>) -> ItemView
    recommends
        s.len() >= 42,
{
    ItemView {
        is_initialized: s[0] != 0,
        seller: s.subrange(1, 33),
        price: spec_u64_from_le_bytes(s.subrange(33, 41)),
        is_active: s[41] != 0,
    }
}

/// Byte-by-byte description of `packed_prefix`.
pub proof fn lemma_packed_prefix_index(v: ItemView)
    requires
        v.wf(),
    ensures
        packed_prefix(v).len() == 42,
        packed_prefix(v)[0] == bool_byte(v.is_initialized),
        forall|i: int| 1 <= i < 33 ==> packed_prefix(v)[i] == v.seller[i - 1],
        forall|i: int| 33 <= i < 41 ==> packed_prefix(v)[i] == spec_u64_to_le_bytes(v.price)[i
            - 33],
        packed_prefix(v)[41] == bool_byte(v.is_active),
{
    lemma_auto_spec_u64_to_from_le_bytes();
}

/// Reading back a freshly packed buffer yields the packed view: the codec's
/// round trip is the identity on the value domain.  Holds for any buffer
/// whose first 42 bytes are `packed_prefix(v)`, whatever stands beyond them.
pub proof fn lemma_unpack_of_packed(v: ItemView, s: Seq<u8>)
    requires
        v.wf(),
        s.len() >= 42,
        s.subrange(0, 42) == packed_prefix(v),
    ensures
        item_of_bytes(s) == v,
{
    lemma_auto_spec_u64_to_from_le_bytes();
    lemma_packed_prefix_index(v);
    let p = packed_prefix(v);
    assert forall|i: int| 0 <= i < 42 implies s[i] == #[trigger] p[i] by {
        assert(s.subrange(0, 42)[i] == s[i]);
    }
    assert forall|i: int| 0 <= i < 32 implies #[trigger] item_of_bytes(s).seller[i]
        == v.seller[i] by {
        assert(s.subrange(1, 33)[i] == s[1 + i]);
        assert(p[1 + i] == v.seller[i]);
    }
    assert(item_of_bytes(s).seller =~= v.seller);
    assert forall|i: int| 0 <= i < 8 implies #[trigger] s.subrange(33, 41)[i]
        == spec_u64_to_le_bytes(v.price)[i] by {
        assert(s.subrange(33, 41)[i] == s[33 + i]);
        assert(p[33 + i] == spec_u64_to_le_bytes(v.price)[i]);
    }
    assert(s.subrange(33, 41) =~= spec_u64_to_le_bytes(v.price));
    assert(item_of_bytes(s).price == v.price);
    assert(item_of_bytes(s) =~= v);
}

/// On a buffer that began as the output of `pack_into_slice`, unpacking and
/// packing again reproduces the first 42 bytes exactly.
pub proof fn lemma_pack_of_unpacked(v: ItemView, s: Seq<u8>)
    requires
        v.wf(),
        s.len() >= 42,
        s.subrange(0, 42) == packed_prefix(v),
    ensures
        packed_prefix(item_of_bytes(s)) == s.subrange(0, 42),
{
    lemma_unpack_of_packed(v, s);
}

impl MarketplaceItem {
    /// Declared record length in bytes; bytes 42..73 are reserved padding.
    pub const LEN: usize = 73;

    /// Reads a record from the first 42 bytes of `src`.
    ///
    /// Fails with `InvalidAccountData` when `src` is shorter than the
    /// declared record length.
    pub fn unpack_from_slice(src: &[u8]) -> (r: Result<Self, ProgramError>)
        ensures
            src@.len() >= 73 ==> (r matches Ok(item) && item@ == item_of_bytes(src@)),
            src@.len() < 73 ==> r == Err::<Self, ProgramError>(ProgramError::InvalidAccountData),
    {
        if src.len() < 73 {
            return Err(ProgramError::InvalidAccountData);
        }
        let is_initialized = src[0] != 0;
        let mut seller_bytes: [u8; 32] = [0u8; 32];
        let mut i: usize = 0;
        while i < 32
            invariant
                i <= 32,
                src@.len() >= 73,
                forall|j: int| 0 <= j < i ==> seller_bytes@[j] == src@[1 + j],
            decreases 32 - i,
        {
            seller_bytes[i] = src[1 + i];
            i = i + 1;
        }
        let price = u64_from_le_bytes(slice_subrange(src, 33, 41));
        let is_active = src[41] != 0;
        let item = MarketplaceItem {
            is_initialized,
            seller: Pubkey { bytes: seller_bytes },
            price,
            is_active,
        };
        proof {
            assert(item@.seller =~= item_of_bytes(src@).seller);
            assert(item@ =~= item_of_bytes(src@));
        }
        Ok(item)
    }

    /// Writes the record's 42 serialized bytes at the start of `dst` and
    /// leaves every other byte as it was.  The destination must hold the
    /// declared record length.
    pub fn pack_into_slice(&self, dst: &mut Vec<u8>)
        requires
            old(dst)@.len() >= 73,
        ensures
            final(dst)@.len() == old(dst)@.len(),
            final(dst)@.subrange(0, 42) == packed_prefix(self@),
            forall|i: int| 42 <= i < old(dst)@.len() ==> final(dst)@[i] == old(dst)@[i],
    {
        let ghost orig = dst@;
        dst[0] = if self.is_initialized {
            1u8
        } else {
            0u8
        };
        let mut i: usize = 0;
        while i < 32
            invariant
                i <= 32,
                dst@.len() == orig.len(),
                orig.len() >= 73,
                dst@[0] == bool_byte(self.is_initialized),
                forall|j: int| 0 <= j < i ==> dst@[1 + j] == self.seller.bytes@[j],
                forall|j: int| 1 + i <= j < orig.len() ==> dst@[j] == orig[j],
            decreases 32 - i,
        {
            dst[1 + i] = self.seller.bytes[i];
            i = i + 1;
        }
        let price_bytes = u64_to_le_bytes(self.price);
        let mut j: usize = 0;
        while j < 8
            invariant
                j <= 8,
                dst@.len() == orig.len(),
                orig.len() >= 73,
                price_bytes@ == spec_u64_to_le_bytes(self.price),
                price_bytes@.len() == 8,
                dst@[0] == bool_byte(self.is_initialized),
                forall|k: int| 0 <= k < 32 ==> dst@[1 + k] == self.seller.bytes@[k],
                forall|k: int| 0 <= k < j ==> dst@[33 + k] == price_bytes@[k],
                forall|k: int| 33 + j <= k < orig.len() ==> dst@[k] == orig[k],
            decreases 8 - j,
        {
            dst[33 + j] = price_bytes[j];
            j = j + 1;
        }
        dst[41] = if self.is_active {
            1u8
        } else {
            0u8
        };
        proof {
            lemma_packed_prefix_index(self@);
            assert(dst@.subrange(0, 42) =~= packed_prefix(self@));
        }
    }
}

} // verus!
