use auction_escrow::codec::{pack_record, unpack_record, unpack_unchecked, RECORD_LEN};
use auction_escrow::error::OperationError;
use auction_escrow::identity::Identity;
use auction_escrow::record::{AuctionRecord, StoredRecord};

fn ident(n: u64) -> Identity {
    Identity { w0: n, w1: n.wrapping_mul(3), w2: n.wrapping_mul(5), w3: n.wrapping_mul(7) }
}

fn sample_record() -> AuctionRecord {
    AuctionRecord {
        initialized: true,
        exhibitor: ident(1),
        exhibited_item_custody: ident(2),
        exhibitor_payout_destination: ident(3),
        current_price: 12345,
        auction_end: -99,
        highest_bidder: ident(4),
        highest_bidder_currency_custody: ident(5),
        highest_bidder_refund_destination: ident(6),
    }
}

#[test]
fn pack_then_unpack_gives_the_record_back() {
    let rec = sample_record();
    let bytes = pack_record(&rec);
    assert_eq!(bytes.len(), RECORD_LEN);
    let parsed = unpack_record(&bytes).unwrap();
    assert_eq!(parsed, rec);
}

#[test]
fn negative_timestamp_survives_the_roundtrip() {
    let mut rec = sample_record();
    rec.auction_end = i64::MIN;
    let parsed = unpack_record(&pack_record(&rec)).unwrap();
    assert_eq!(parsed.auction_end, i64::MIN);
    rec.auction_end = i64::MAX;
    let parsed = unpack_record(&pack_record(&rec)).unwrap();
    assert_eq!(parsed.auction_end, i64::MAX);
}

#[test]
fn all_zero_storage_is_valid_but_uninitialized() {
    let zeros = vec![0u8; RECORD_LEN];
    assert!(matches!(unpack_unchecked(&zeros), Ok(StoredRecord::Empty)));
    assert!(matches!(unpack_record(&zeros), Err(OperationError::UninitializedAccount)));
}

#[test]
fn undersized_storage_is_rejected() {
    let short = vec![0u8; RECORD_LEN - 1];
    assert!(matches!(unpack_unchecked(&short), Err(OperationError::InvalidAccountData)));
    let empty: Vec<u8> = Vec::new();
    assert!(matches!(unpack_record(&empty), Err(OperationError::InvalidAccountData)));
}

#[test]
fn garbage_flag_byte_is_rejected() {
    let mut garbage = vec![0u8; RECORD_LEN];
    garbage[0] = 2;
    assert!(matches!(unpack_unchecked(&garbage), Err(OperationError::InvalidAccountData)));
}

#[test]
fn uninitialized_record_packs_to_empty_storage() {
    let mut rec = sample_record();
    rec.initialized = false;
    let bytes = pack_record(&rec);
    assert!(matches!(unpack_unchecked(&bytes), Ok(StoredRecord::Empty)));
}
