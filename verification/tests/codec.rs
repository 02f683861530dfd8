//! Tests of the record codec: layout, round trips, exact bytes.
use marketplace::accounts::Pubkey;
use marketplace::errors::ProgramError;
use marketplace::marketplace_item::MarketplaceItem;

fn key(b: u8) -> Pubkey {
    Pubkey { bytes: [b; 32] }
}

#[test]
fn test_item_size() {
    assert_eq!(MarketplaceItem::LEN, 73);
}

#[test]
fn pack_writes_exact_bytes() {
    let item = MarketplaceItem {
        is_initialized: true,
        seller: key(7),
        price: 1_000_000_000,
        is_active: true,
    };
    let mut buf = vec![0u8; 73];
    item.pack_into_slice(&mut buf);
    assert_eq!(buf[0], 1);
    assert_eq!(&buf[1..33], &[7u8; 32]);
    assert_eq!(&buf[33..41], &[0x00, 0xca, 0x9a, 0x3b, 0x00, 0x00, 0x00, 0x00]);
    assert_eq!(buf[41], 1);
    assert_eq!(&buf[42..73], &[0u8; 31]);
}

#[test]
fn pack_leaves_reserved_bytes_alone() {
    let item = MarketplaceItem {
        is_initialized: false,
        seller: key(1),
        price: 3,
        is_active: false,
    };
    let mut buf = vec![0xabu8; 80];
    item.pack_into_slice(&mut buf);
    assert_eq!(&buf[42..80], &[0xabu8; 38]);
    assert_eq!(buf[0], 0);
    assert_eq!(buf[41], 0);
}

#[test]
fn unpack_of_pack_is_identity_on_values() {
    let item = MarketplaceItem {
        is_initialized: true,
        seller: key(42),
        price: u64::MAX,
        is_active: false,
    };
    let mut buf = vec![0u8; 73];
    item.pack_into_slice(&mut buf);
    let back = MarketplaceItem::unpack_from_slice(&buf).unwrap();
    assert_eq!(back.is_initialized, item.is_initialized);
    assert_eq!(back.seller.bytes, item.seller.bytes);
    assert_eq!(back.price, item.price);
    assert_eq!(back.is_active, item.is_active);
}

#[test]
fn pack_of_unpack_is_identity_on_packed_buffers() {
    let item = MarketplaceItem {
        is_initialized: true,
        seller: key(9),
        price: 123_456_789,
        is_active: true,
    };
    let mut first = vec![0u8; 73];
    item.pack_into_slice(&mut first);
    let back = MarketplaceItem::unpack_from_slice(&first).unwrap();
    let mut second = vec![0u8; 73];
    back.pack_into_slice(&mut second);
    assert_eq!(&first[0..42], &second[0..42]);
}

#[test]
fn unpack_accepts_any_nonzero_boolean_byte() {
    let mut buf = vec![0u8; 73];
    buf[0] = 7;
    buf[41] = 255;
    let item = MarketplaceItem::unpack_from_slice(&buf).unwrap();
    assert!(item.is_initialized);
    assert!(item.is_active);
}

#[test]
fn unpack_rejects_short_buffer() {
    let buf = vec![0u8; 72];
    let r = MarketplaceItem::unpack_from_slice(&buf);
    assert_eq!(r.unwrap_err(), ProgramError::InvalidAccountData);
}
