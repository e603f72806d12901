#![allow(deprecated)]

use auction_escrow::codec::{unpack_record, unpack_unchecked, RECORD_LEN};
use auction_escrow::error::{AuctionError, OperationError};
use auction_escrow::escrow::TokenAction;
use auction_escrow::identity::Identity;
use auction_escrow::processor::{
    BidRequest, CancelRequest, CloseRequest, ExhibitRequest, Processor,
};
use solana_program::program_option::COption;
use solana_program::program_pack::Pack;
use solana_program::pubkey::Pubkey;

fn ident(n: u64) -> Identity {
    Identity { w0: n, w1: 0, w2: 0, w3: 0 }
}

fn program_id() -> Identity {
    ident(77)
}

fn exhibitor() -> Identity {
    ident(10)
}

fn bidder_one() -> Identity {
    ident(21)
}

fn bidder_two() -> Identity {
    ident(22)
}

fn open_request() -> ExhibitRequest {
    ExhibitRequest {
        program_id: program_id(),
        exhibitor: exhibitor(),
        exhibitor_signed: true,
        collectible_source: ident(11),
        collectible_custody: ident(12),
        payout_destination: ident(13),
        escrow_lamports: 5_000,
        rent_minimum_balance: 2_000,
        now: 1000,
        initial_price: 100,
        duration_seconds: 3600,
    }
}

fn opened_escrow() -> Vec<u8> {
    let empty = vec![0u8; RECORD_LEN];
    Processor::process_exhibit(&empty, &open_request()).unwrap().escrow_data
}

fn first_bid_request() -> BidRequest {
    BidRequest {
        program_id: program_id(),
        bidder: bidder_one(),
        bidder_signed: true,
        prior_bidder: Identity::null(),
        prior_currency_custody: Identity::null(),
        prior_refund_destination: Identity::null(),
        currency_custody: ident(31),
        currency_source: ident(32),
        now: 2000,
        price: 150,
    }
}

fn escrow_after_first_bid() -> Vec<u8> {
    Processor::process_bid(&opened_escrow(), &first_bid_request()).unwrap().escrow_data
}

fn second_bid_request() -> BidRequest {
    BidRequest {
        program_id: program_id(),
        bidder: bidder_two(),
        bidder_signed: true,
        prior_bidder: bidder_one(),
        prior_currency_custody: ident(31),
        prior_refund_destination: ident(32),
        currency_custody: ident(41),
        currency_source: ident(42),
        now: 2500,
        price: 200,
    }
}

fn escrow_after_second_bid() -> Vec<u8> {
    Processor::process_bid(&escrow_after_first_bid(), &second_bid_request()).unwrap().escrow_data
}

fn token_account_bytes(amount: u64) -> Vec<u8> {
    let account = spl_token::state::Account {
        mint: Pubkey::new_from_array([9u8; 32]),
        owner: Pubkey::new_from_array([8u8; 32]),
        amount,
        delegate: COption::None,
        state: spl_token::state::AccountState::Initialized,
        is_native: COption::None,
        delegated_amount: 0,
        close_authority: COption::None,
    };
    let mut buf = vec![0u8; 165];
    Pack::pack(account, &mut buf).unwrap();
    buf
}

fn settle_request(now: i64) -> CloseRequest {
    CloseRequest {
        program_id: program_id(),
        highest_bidder: bidder_two(),
        highest_bidder_signed: true,
        exhibitor: exhibitor(),
        collectible_custody: ident(12),
        payout_destination: ident(13),
        currency_custody: ident(41),
        collectible_receive_destination: ident(43),
        now,
        exhibitor_lamports: 9_000,
        escrow_lamports: 5_000,
    }
}

fn identity_bytes(id: &Identity) -> [u8; 32] {
    let mut b = [0u8; 32];
    b[0..8].copy_from_slice(&id.w0.to_le_bytes());
    b[8..16].copy_from_slice(&id.w1.to_le_bytes());
    b[16..24].copy_from_slice(&id.w2.to_le_bytes());
    b[24..32].copy_from_slice(&id.w3.to_le_bytes());
    b
}

#[test]
fn open_records_the_auction() {
    let empty = vec![0u8; RECORD_LEN];
    let out = Processor::process_exhibit(&empty, &open_request()).unwrap();
    assert_eq!(out.record.current_price, 100);
    assert_eq!(out.record.auction_end, 4600);
    assert_eq!(out.record.highest_bidder, Identity::null());
    assert_eq!(out.record.exhibitor, exhibitor());
    assert!(out.record.initialized);
    let written = unpack_record(&out.escrow_data).unwrap();
    assert_eq!(written, out.record);
    assert_eq!(out.actions.len(), 2);
    assert_eq!(
        out.actions[0],
        TokenAction::Transfer {
            source: ident(11),
            destination: ident(12),
            authority: exhibitor(),
            custody_signed: false,
            amount: 1,
        }
    );
    assert_eq!(
        out.actions[1],
        TokenAction::SetAuthority {
            account: ident(12),
            new_authority: out.custody_authority,
            current_authority: exhibitor(),
            custody_signed: false,
        }
    );
}

#[test]
fn open_requires_a_signature() {
    let empty = vec![0u8; RECORD_LEN];
    let mut req = open_request();
    req.exhibitor_signed = false;
    let r = Processor::process_exhibit(&empty, &req);
    assert!(matches!(r, Err(OperationError::MissingRequiredSignature)));
}

#[test]
fn open_requires_rent_exempt_storage() {
    let empty = vec![0u8; RECORD_LEN];
    let mut req = open_request();
    req.escrow_lamports = 1_999;
    let r = Processor::process_exhibit(&empty, &req);
    assert!(matches!(r, Err(OperationError::Auction(AuctionError::NotRentExempt))));
}

#[test]
fn open_rejects_initialized_storage() {
    let r = Processor::process_exhibit(&opened_escrow(), &open_request());
    assert!(matches!(r, Err(OperationError::AccountAlreadyInitialized)));
}

#[test]
fn open_rejects_an_end_time_past_the_clock_range() {
    let empty = vec![0u8; RECORD_LEN];
    let mut req = open_request();
    req.now = i64::MAX;
    req.duration_seconds = 1;
    let r = Processor::process_exhibit(&empty, &req);
    assert!(matches!(r, Err(OperationError::Auction(AuctionError::AmountOverflow))));
}

#[test]
fn custody_authority_matches_the_ledger_derivation() {
    let empty = vec![0u8; RECORD_LEN];
    let out = Processor::process_exhibit(&empty, &open_request()).unwrap();
    let pk = Pubkey::new_from_array(identity_bytes(&program_id()));
    let (expected, expected_bump) = Pubkey::find_program_address(&[b"escrow"], &pk);
    assert_eq!(identity_bytes(&out.custody_authority), expected.to_bytes());
    assert_eq!(out.bump, expected_bump);
    assert_ne!(out.custody_authority, program_id());
}

#[test]
fn first_bid_raises_the_price() {
    let out = Processor::process_bid(&opened_escrow(), &first_bid_request()).unwrap();
    assert_eq!(out.record.current_price, 150);
    assert_eq!(out.record.highest_bidder, bidder_one());
    assert_eq!(out.record.highest_bidder_currency_custody, ident(31));
    assert_eq!(out.record.highest_bidder_refund_destination, ident(32));
    assert_eq!(out.record.auction_end, 4600);
    assert_eq!(out.actions.len(), 2);
    assert_eq!(
        out.actions[0],
        TokenAction::Transfer {
            source: ident(32),
            destination: ident(31),
            authority: bidder_one(),
            custody_signed: false,
            amount: 150,
        }
    );
}

#[test]
fn underbid_is_rejected() {
    let mut req = BidRequest { price: 120, bidder: bidder_two(), ..first_bid_request() };
    req.prior_bidder = bidder_one();
    req.prior_currency_custody = ident(31);
    req.prior_refund_destination = ident(32);
    let r = Processor::process_bid(&escrow_after_first_bid(), &req);
    assert!(matches!(r, Err(OperationError::Auction(AuctionError::InsufficientBidPrice))));
}

#[test]
fn equal_bid_is_rejected() {
    let mut req = second_bid_request();
    req.price = 150;
    let r = Processor::process_bid(&escrow_after_first_bid(), &req);
    assert!(matches!(r, Err(OperationError::Auction(AuctionError::InsufficientBidPrice))));
}

#[test]
fn outbid_refunds_exactly_the_previous_price() {
    let out = Processor::process_bid(&escrow_after_first_bid(), &second_bid_request()).unwrap();
    assert_eq!(out.record.current_price, 200);
    assert_eq!(out.record.highest_bidder, bidder_two());
    assert_eq!(out.actions.len(), 4);
    assert_eq!(
        out.actions[2],
        TokenAction::Transfer {
            source: ident(31),
            destination: ident(32),
            authority: out.custody_authority,
            custody_signed: true,
            amount: 150,
        }
    );
    assert_eq!(
        out.actions[3],
        TokenAction::CloseAccount {
            account: ident(31),
            rent_destination: bidder_one(),
            authority: out.custody_authority,
            custody_signed: true,
        }
    );
}

#[test]
fn bid_requires_a_signature() {
    let mut req = first_bid_request();
    req.bidder_signed = false;
    let r = Processor::process_bid(&opened_escrow(), &req);
    assert!(matches!(r, Err(OperationError::MissingRequiredSignature)));
}

#[test]
fn bid_on_uninitialized_storage_is_rejected() {
    let empty = vec![0u8; RECORD_LEN];
    let r = Processor::process_bid(&empty, &first_bid_request());
    assert!(matches!(r, Err(OperationError::UninitializedAccount)));
}

#[test]
fn bid_at_the_end_time_is_inactive() {
    let mut req = first_bid_request();
    req.now = 4600;
    req.price = 1_000_000;
    let r = Processor::process_bid(&opened_escrow(), &req);
    assert!(matches!(r, Err(OperationError::Auction(AuctionError::InactiveAuction))));
}

#[test]
fn bid_with_stale_references_fails_closed() {
    let mut req = second_bid_request();
    req.prior_currency_custody = ident(99);
    let r = Processor::process_bid(&escrow_after_first_bid(), &req);
    assert!(matches!(r, Err(OperationError::Auction(AuctionError::InvalidInstruction))));
}

#[test]
fn highest_bidder_cannot_raise_own_bid() {
    let mut req = second_bid_request();
    req.bidder = bidder_one();
    let r = Processor::process_bid(&escrow_after_first_bid(), &req);
    assert!(matches!(r, Err(OperationError::Auction(AuctionError::AlreadyBid))));
}

fn cancel_request() -> CancelRequest {
    CancelRequest {
        program_id: program_id(),
        exhibitor: exhibitor(),
        exhibitor_signed: true,
        collectible_custody: ident(12),
        collectible_return_destination: ident(14),
        exhibitor_lamports: 9_000,
        escrow_lamports: 5_000,
    }
}

#[test]
fn cancel_before_any_bid_returns_the_collectible() {
    let custody = token_account_bytes(1);
    let out = Processor::process_cancel(&opened_escrow(), &custody, &cancel_request()).unwrap();
    assert_eq!(out.actions.len(), 2);
    assert_eq!(
        out.actions[0],
        TokenAction::Transfer {
            source: ident(12),
            destination: ident(14),
            authority: out.custody_authority,
            custody_signed: true,
            amount: 1,
        }
    );
    assert_eq!(
        out.actions[1],
        TokenAction::CloseAccount {
            account: ident(12),
            rent_destination: exhibitor(),
            authority: out.custody_authority,
            custody_signed: true,
        }
    );
    assert_eq!(out.escrow_lamports, 0);
    assert_eq!(out.exhibitor_lamports, 14_000);
    assert!(out.escrow_data.is_empty());
    assert!(unpack_unchecked(&out.escrow_data).is_err());
}

#[test]
fn cancel_reads_the_recorded_custody_balance() {
    let custody = token_account_bytes(7_777);
    let out = Processor::process_cancel(&opened_escrow(), &custody, &cancel_request()).unwrap();
    assert_eq!(
        out.actions[0],
        TokenAction::Transfer {
            source: ident(12),
            destination: ident(14),
            authority: out.custody_authority,
            custody_signed: true,
            amount: 7_777,
        }
    );
}

#[test]
fn price_increases_across_successive_bids() {
    let opened = unpack_record(&opened_escrow()).unwrap();
    let after_first = unpack_record(&escrow_after_first_bid()).unwrap();
    let after_second = unpack_record(&escrow_after_second_bid()).unwrap();
    assert!(opened.current_price < after_first.current_price);
    assert!(after_first.current_price < after_second.current_price);
}

#[test]
fn cancel_requires_a_signature() {
    let custody = token_account_bytes(1);
    let mut req = cancel_request();
    req.exhibitor_signed = false;
    let r = Processor::process_cancel(&opened_escrow(), &custody, &req);
    assert!(matches!(r, Err(OperationError::MissingRequiredSignature)));
}

#[test]
fn cancel_after_a_bid_is_rejected() {
    let custody = token_account_bytes(1);
    let r = Processor::process_cancel(&escrow_after_first_bid(), &custody, &cancel_request());
    assert!(matches!(r, Err(OperationError::Auction(AuctionError::AlreadyBid))));
}

#[test]
fn cancel_by_another_party_is_rejected() {
    let custody = token_account_bytes(1);
    let mut req = cancel_request();
    req.exhibitor = bidder_one();
    let r = Processor::process_cancel(&opened_escrow(), &custody, &req);
    assert!(matches!(r, Err(OperationError::Auction(AuctionError::InvalidInstruction))));
}

#[test]
fn cancel_rejects_a_garbage_custody_account() {
    let custody = vec![3u8; 165];
    let r = Processor::process_cancel(&opened_escrow(), &custody, &cancel_request());
    assert!(matches!(r, Err(OperationError::InvalidAccountData)));
}

#[test]
fn cancel_rejects_a_rent_consolidation_overflow() {
    let custody = token_account_bytes(1);
    let mut req = cancel_request();
    req.exhibitor_lamports = u64::MAX;
    req.escrow_lamports = 1;
    let r = Processor::process_cancel(&opened_escrow(), &custody, &req);
    assert!(matches!(r, Err(OperationError::Auction(AuctionError::AmountOverflow))));
}

#[test]
fn close_before_the_end_reports_remaining_seconds() {
    let collectible = token_account_bytes(1);
    let currency = token_account_bytes(200);
    let r = Processor::process_close(
        &escrow_after_second_bid(),
        &collectible,
        &currency,
        &settle_request(4000),
    );
    assert!(matches!(
        r,
        Err(OperationError::Auction(AuctionError::ActiveAuction { remaining_seconds: 600 }))
    ));
}

#[test]
fn settlement_delivers_both_assets_and_reclaims_storage() {
    let collectible = token_account_bytes(1);
    let currency = token_account_bytes(200);
    let out = Processor::process_close(
        &escrow_after_second_bid(),
        &collectible,
        &currency,
        &settle_request(4700),
    )
    .unwrap();
    assert_eq!(out.actions.len(), 4);
    assert_eq!(
        out.actions[0],
        TokenAction::Transfer {
            source: ident(12),
            destination: ident(43),
            authority: out.custody_authority,
            custody_signed: true,
            amount: 1,
        }
    );
    assert_eq!(
        out.actions[1],
        TokenAction::Transfer {
            source: ident(41),
            destination: ident(13),
            authority: out.custody_authority,
            custody_signed: true,
            amount: 200,
        }
    );
    assert_eq!(
        out.actions[2],
        TokenAction::CloseAccount {
            account: ident(41),
            rent_destination: bidder_two(),
            authority: out.custody_authority,
            custody_signed: true,
        }
    );
    assert_eq!(
        out.actions[3],
        TokenAction::CloseAccount {
            account: ident(12),
            rent_destination: exhibitor(),
            authority: out.custody_authority,
            custody_signed: true,
        }
    );
    assert_eq!(out.escrow_lamports, 0);
    assert_eq!(out.exhibitor_lamports, 14_000);
    assert!(out.escrow_data.is_empty());
    assert!(unpack_unchecked(&out.escrow_data).is_err());
    assert!(unpack_record(&out.escrow_data).is_err());
}

#[test]
fn close_by_another_party_is_rejected() {
    let collectible = token_account_bytes(1);
    let currency = token_account_bytes(200);
    let mut req = settle_request(4700);
    req.highest_bidder = bidder_one();
    let r = Processor::process_close(
        &escrow_after_second_bid(),
        &collectible,
        &currency,
        &req,
    );
    assert!(matches!(r, Err(OperationError::Auction(AuctionError::InvalidInstruction))));
}

#[test]
fn close_requires_a_signature() {
    let collectible = token_account_bytes(1);
    let currency = token_account_bytes(200);
    let mut req = settle_request(4700);
    req.highest_bidder_signed = false;
    let r = Processor::process_close(
        &escrow_after_second_bid(),
        &collectible,
        &currency,
        &req,
    );
    assert!(matches!(r, Err(OperationError::MissingRequiredSignature)));
}
