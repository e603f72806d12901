use crate::codec::{
    pack_record, spec_pack_record, spec_unpack, spec_unpack_unchecked, unpack_record,
    unpack_unchecked,
};
use crate::error::{AuctionError, OperationError};
use crate::escrow::{
    custody_authority_of, derive_custody_authority, spec_token_account_ok, spec_token_amount,
    token_account_amount, TokenAction,
};
use crate::identity::Identity;
use crate::record::{AuctionRecord, StoredRecord};
use vstd::prelude::*;

verus! {

/// Everything Open is handed: the caller, the accounts it names, what the
/// environment reports of the escrow storage's funding, the current time and
/// the operation's parameters.
#[derive(Clone, Copy, PartialEq, Eq, Structural, Debug)]
pub struct ExhibitRequest {
    /// The program's own identity, from which the custody authority derives.
    pub program_id: Identity,
    /// The exhibitor opening the auction.
    pub exhibitor: Identity,
    /// Whether the exhibitor has signed the operation.
    pub exhibitor_signed: bool,
    /// The exhibitor's account holding the collectible.
    pub collectible_source: Identity,
    /// The fresh temporary account that will hold the collectible in escrow.
    pub collectible_custody: Identity,
    /// Where currency proceeds are delivered on settlement.
    pub payout_destination: Identity,
    /// The escrow storage's current funding.
    pub escrow_lamports: u64,
    /// The funding needed for the storage to be exempt from rent reclamation.
    pub rent_minimum_balance: u64,
    /// The environment's current time, seconds.
    pub now: i64,
    /// The initial asking price.
    pub initial_price: u64,
    /// How long the auction stays open, seconds.
    pub duration_seconds: u64,
}

/// What an accepted Open orders: the new record, its packed image for the
/// escrow storage, and the custody-transfer calls to perform, in order.
pub struct ExhibitOutcome {
    pub record: AuctionRecord,
    pub escrow_data: Vec<u8>,
    pub actions: Vec<TokenAction>,
    /// The derived custody authority, with its bump, for signing the calls
    /// marked `custody_signed`.
    pub custody_authority: Identity,
    pub bump: u8,
}

/// The first failing Open precondition, or None when Open is accepted.
pub open spec fn spec_exhibit_check(data: Seq<u8>, req: ExhibitRequest) -> Option<OperationError> {
    if !req.exhibitor_signed {
        Some(OperationError::MissingRequiredSignature)
    } else if req.escrow_lamports < req.rent_minimum_balance {
        Some(OperationError::Auction(AuctionError::NotRentExempt))
    } else if spec_unpack_unchecked(data) is Err {
        Some(OperationError::InvalidAccountData)
    } else if spec_unpack_unchecked(data) matches Ok(StoredRecord::Active(_)) {
        Some(OperationError::AccountAlreadyInitialized)
    } else if req.now + req.duration_seconds > i64::MAX {
        Some(OperationError::Auction(AuctionError::AmountOverflow))
    } else if custody_authority_of(req.program_id@) is None {
        Some(OperationError::CustodyAuthorityNotFound)
    } else {
        None
    }
}

/// The record an accepted Open writes: the auction runs until `now` plus the
/// requested duration, at the asking price, with no bidder recorded.
pub open spec fn spec_exhibit_record(req: ExhibitRequest) -> AuctionRecord {
    AuctionRecord {
        initialized: true,
        exhibitor: req.exhibitor,
        exhibited_item_custody: req.collectible_custody,
        exhibitor_payout_destination: req.payout_destination,
        current_price: req.initial_price,
        auction_end: (req.now + req.duration_seconds) as i64,
        highest_bidder: Identity::spec_null(),
        highest_bidder_currency_custody: Identity::spec_null(),
        highest_bidder_refund_destination: Identity::spec_null(),
    }
}

/// The custody calls an accepted Open orders: move one collectible unit into
/// the temporary account under the exhibitor's own signature, then hand that
/// account to the custody authority.
pub open spec fn spec_exhibit_actions(req: ExhibitRequest, authority: Identity) -> Seq<
    TokenAction,
> {
    seq![
        (TokenAction::Transfer {
            source: req.collectible_source,
            destination: req.collectible_custody,
            authority: req.exhibitor,
            custody_signed: false,
            amount: 1,
        }),
        (TokenAction::SetAuthority {
            account: req.collectible_custody,
            new_authority: authority,
            current_authority: req.exhibitor,
            custody_signed: false,
        }),
    ]
}

/// Everything Bid is handed: the caller, the prior-bid accounts it claims,
/// the accounts for its own deposit, the current time and the offered price.
#[derive(Clone, Copy, PartialEq, Eq, Structural, Debug)]
pub struct BidRequest {
    /// The program's own identity, from which the custody authority derives.
    pub program_id: Identity,
    /// The bidder placing this bid.
    pub bidder: Identity,
    /// Whether the bidder has signed the operation.
    pub bidder_signed: bool,
    /// The prior highest bidder, as the caller claims it.
    pub prior_bidder: Identity,
    /// The prior bidder's temporary currency custody, as the caller claims it.
    pub prior_currency_custody: Identity,
    /// The prior bidder's refund destination, as the caller claims it.
    pub prior_refund_destination: Identity,
    /// The fresh temporary account that will hold this bid's currency.
    pub currency_custody: Identity,
    /// The bidder's account the currency is drawn from; also recorded as the
    /// refund destination should this bid be outbid later.
    pub currency_source: Identity,
    /// The environment's current time, seconds.
    pub now: i64,
    /// The offered price.
    pub price: u64,
}

/// What an accepted Bid orders: the overwritten record, its packed image,
/// and the custody calls to perform, in order.
pub struct BidOutcome {
    pub record: AuctionRecord,
    pub escrow_data: Vec<u8>,
    pub actions: Vec<TokenAction>,
    /// The derived custody authority, with its bump, for signing the calls
    /// marked `custody_signed`.
    pub custody_authority: Identity,
    pub bump: u8,
}

/// The first failing Bid precondition against a parsed record, or None when
/// the bid is accepted. The claimed prior-bid accounts must match the stored
/// ones exactly, so a bid computed against a stale record fails closed.
pub open spec fn spec_bid_check_record(rec: AuctionRecord, req: BidRequest) -> Option<
    OperationError,
> {
    if rec.auction_end <= req.now {
        Some(OperationError::Auction(AuctionError::InactiveAuction))
    } else if req.price <= rec.current_price {
        Some(OperationError::Auction(AuctionError::InsufficientBidPrice))
    } else if rec.highest_bidder_currency_custody != req.prior_currency_custody {
        Some(OperationError::Auction(AuctionError::InvalidInstruction))
    } else if rec.highest_bidder_refund_destination != req.prior_refund_destination {
        Some(OperationError::Auction(AuctionError::InvalidInstruction))
    } else if rec.highest_bidder != req.prior_bidder {
        Some(OperationError::Auction(AuctionError::InvalidInstruction))
    } else if rec.highest_bidder == req.bidder {
        Some(OperationError::Auction(AuctionError::AlreadyBid))
    } else if custody_authority_of(req.program_id@) is None {
        Some(OperationError::CustodyAuthorityNotFound)
    } else {
        None
    }
}

/// The first failing Bid precondition against raw escrow storage.
pub open spec fn spec_bid_check(data: Seq<u8>, req: BidRequest) -> Option<OperationError> {
    if !req.bidder_signed {
        Some(OperationError::MissingRequiredSignature)
    } else {
        match spec_unpack(data) {
            Err(e) => Some(e),
            Ok(rec) => spec_bid_check_record(rec, req),
        }
    }
}

/// A signed bid that passes every precondition against `rec`.
pub open spec fn spec_bid_accepts(rec: AuctionRecord, req: BidRequest) -> bool {
    req.bidder_signed && spec_bid_check_record(rec, req) is None
}

/// The record an accepted Bid overwrites: the new price and the new bidder's
/// identities; everything else is kept.
pub open spec fn spec_bid_record(rec: AuctionRecord, req: BidRequest) -> AuctionRecord {
    AuctionRecord {
        current_price: req.price,
        highest_bidder: req.bidder,
        highest_bidder_currency_custody: req.currency_custody,
        highest_bidder_refund_destination: req.currency_source,
        ..rec
    }
}

/// The custody calls an accepted Bid orders: escrow the new bid's currency
/// and hand its account to the custody authority; then, if a prior bid
/// exists, refund exactly the prior recorded price from the prior custody
/// account and close that account, crediting its storage deposit to the
/// prior bidder.
pub open spec fn spec_bid_actions(rec: AuctionRecord, req: BidRequest, authority: Identity) -> Seq<
    TokenAction,
> {
    let escrow_in = seq![
        (TokenAction::Transfer {
            source: req.currency_source,
            destination: req.currency_custody,
            authority: req.bidder,
            custody_signed: false,
            amount: req.price,
        }),
        (TokenAction::SetAuthority {
            account: req.currency_custody,
            new_authority: authority,
            current_authority: req.bidder,
            custody_signed: false,
        }),
    ];
    if rec.highest_bidder == Identity::spec_null() {
        escrow_in
    } else {
        escrow_in + seq![
            (TokenAction::Transfer {
                source: rec.highest_bidder_currency_custody,
                destination: rec.highest_bidder_refund_destination,
                authority,
                custody_signed: true,
                amount: rec.current_price,
            }),
            (TokenAction::CloseAccount {
                account: rec.highest_bidder_currency_custody,
                rent_destination: rec.highest_bidder,
                authority,
                custody_signed: true,
            }),
        ]
    }
}

/// Everything Cancel is handed: the caller, the accounts it names and what
/// the environment reports of the balances involved in reclaiming the escrow
/// storage.
#[derive(Clone, Copy, PartialEq, Eq, Structural, Debug)]
pub struct CancelRequest {
    /// The program's own identity, from which the custody authority derives.
    pub program_id: Identity,
    /// The exhibitor cancelling the auction.
    pub exhibitor: Identity,
    /// Whether the exhibitor has signed the operation.
    pub exhibitor_signed: bool,
    /// The temporary account holding the collectible, as the caller claims it.
    pub collectible_custody: Identity,
    /// Where the collectible is returned.
    pub collectible_return_destination: Identity,
    /// The exhibitor's current funding, into which the escrow storage's
    /// deposit is consolidated.
    pub exhibitor_lamports: u64,
    /// The escrow storage's current funding.
    pub escrow_lamports: u64,
}

/// What an accepted Cancel orders: the custody calls, the cleared escrow
/// storage, and the consolidated balances.
pub struct CancelOutcome {
    pub actions: Vec<TokenAction>,
    /// The escrow storage's bytes after reclamation: empty, so the storage
    /// no longer parses as a record.
    pub escrow_data: Vec<u8>,
    /// The escrow storage's funding after reclamation: zero.
    pub escrow_lamports: u64,
    /// The exhibitor's funding after the storage deposit is consolidated.
    pub exhibitor_lamports: u64,
    /// The derived custody authority, with its bump, for signing the calls
    /// marked `custody_signed`.
    pub custody_authority: Identity,
    pub bump: u8,
}

/// The first failing Cancel precondition against a parsed record, or None
/// when the cancellation is accepted. `custody_data` is the byte image of
/// the collectible's temporary custody account.
pub open spec fn spec_cancel_check_record(
    rec: AuctionRecord,
    custody_data: Seq<u8>,
    req: CancelRequest,
) -> Option<OperationError> {
    if rec.exhibitor != req.exhibitor {
        Some(OperationError::Auction(AuctionError::InvalidInstruction))
    } else if rec.exhibited_item_custody != req.collectible_custody {
        Some(OperationError::Auction(AuctionError::InvalidInstruction))
    } else if rec.highest_bidder != Identity::spec_null() {
        Some(OperationError::Auction(AuctionError::AlreadyBid))
    } else if custody_authority_of(req.program_id@) is None {
        Some(OperationError::CustodyAuthorityNotFound)
    } else if !spec_token_account_ok(custody_data) {
        Some(OperationError::InvalidAccountData)
    } else if req.exhibitor_lamports + req.escrow_lamports > u64::MAX {
        Some(OperationError::Auction(AuctionError::AmountOverflow))
    } else {
        None
    }
}

/// The first failing Cancel precondition against raw escrow storage.
pub open spec fn spec_cancel_check(data: Seq<u8>, custody_data: Seq<u8>, req: CancelRequest) -> Option<
    OperationError,
> {
    if !req.exhibitor_signed {
        Some(OperationError::MissingRequiredSignature)
    } else {
        match spec_unpack(data) {
            Err(e) => Some(e),
            Ok(rec) => spec_cancel_check_record(rec, custody_data, req),
        }
    }
}

/// The custody calls an accepted Cancel orders: return the full collectible
/// balance to the exhibitor's chosen destination, then close the emptied
/// temporary account, both under the custody authority's signature.
pub open spec fn spec_cancel_actions(req: CancelRequest, balance: u64, authority: Identity) -> Seq<
    TokenAction,
> {
    seq![
        (TokenAction::Transfer {
            source: req.collectible_custody,
            destination: req.collectible_return_destination,
            authority,
            custody_signed: true,
            amount: balance,
        }),
        (TokenAction::CloseAccount {
            account: req.collectible_custody,
            rent_destination: req.exhibitor,
            authority,
            custody_signed: true,
        }),
    ]
}

/// Everything Close (settlement) is handed: the caller, the accounts it
/// names, the current time and the balances involved in reclaiming the
/// escrow storage.
#[derive(Clone, Copy, PartialEq, Eq, Structural, Debug)]
pub struct CloseRequest {
    /// The program's own identity, from which the custody authority derives.
    pub program_id: Identity,
    /// The highest bidder settling the auction.
    pub highest_bidder: Identity,
    /// Whether the highest bidder has signed the operation.
    pub highest_bidder_signed: bool,
    /// The exhibitor, as the caller claims it.
    pub exhibitor: Identity,
    /// The temporary account holding the collectible, as the caller claims it.
    pub collectible_custody: Identity,
    /// The exhibitor's payout destination, as the caller claims it.
    pub payout_destination: Identity,
    /// The temporary account holding the winning currency, as the caller
    /// claims it.
    pub currency_custody: Identity,
    /// Where the collectible is delivered to the winner.
    pub collectible_receive_destination: Identity,
    /// The environment's current time, seconds.
    pub now: i64,
    /// The exhibitor's current funding, into which the escrow storage's
    /// deposit is consolidated.
    pub exhibitor_lamports: u64,
    /// The escrow storage's current funding.
    pub escrow_lamports: u64,
}

/// What an accepted Close orders: the custody calls, the cleared escrow
/// storage, and the consolidated balances.
pub struct CloseOutcome {
    pub actions: Vec<TokenAction>,
    /// The escrow storage's bytes after reclamation: empty, so the storage
    /// no longer parses as a record.
    pub escrow_data: Vec<u8>,
    /// The escrow storage's funding after reclamation: zero.
    pub escrow_lamports: u64,
    /// The exhibitor's funding after the storage deposit is consolidated.
    pub exhibitor_lamports: u64,
    /// The derived custody authority, with its bump, for signing the calls
    /// marked `custody_signed`.
    pub custody_authority: Identity,
    pub bump: u8,
}

/// The first failing Close precondition against a parsed record, or None
/// when settlement is accepted. `collectible_data` and `currency_data` are
/// the byte images of the two temporary custody accounts.
pub open spec fn spec_close_check_record(
    rec: AuctionRecord,
    collectible_data: Seq<u8>,
    currency_data: Seq<u8>,
    req: CloseRequest,
) -> Option<OperationError> {
    if rec.auction_end > req.now {
        Some(
            OperationError::Auction(
                AuctionError::ActiveAuction {
                    remaining_seconds: (rec.auction_end - req.now) as u64,
                },
            ),
        )
    } else if rec.exhibitor != req.exhibitor {
        Some(OperationError::Auction(AuctionError::InvalidInstruction))
    } else if rec.exhibited_item_custody != req.collectible_custody {
        Some(OperationError::Auction(AuctionError::InvalidInstruction))
    } else if rec.exhibitor_payout_destination != req.payout_destination {
        Some(OperationError::Auction(AuctionError::InvalidInstruction))
    } else if rec.highest_bidder_currency_custody != req.currency_custody {
        Some(OperationError::Auction(AuctionError::InvalidInstruction))
    } else if rec.highest_bidder != req.highest_bidder {
        Some(OperationError::Auction(AuctionError::InvalidInstruction))
    } else if custody_authority_of(req.program_id@) is None {
        Some(OperationError::CustodyAuthorityNotFound)
    } else if !spec_token_account_ok(collectible_data) {
        Some(OperationError::InvalidAccountData)
    } else if !spec_token_account_ok(currency_data) {
        Some(OperationError::InvalidAccountData)
    } else if req.exhibitor_lamports + req.escrow_lamports > u64::MAX {
        Some(OperationError::Auction(AuctionError::AmountOverflow))
    } else {
        None
    }
}

/// The first failing Close precondition against raw escrow storage.
pub open spec fn spec_close_check(
    data: Seq<u8>,
    collectible_data: Seq<u8>,
    currency_data: Seq<u8>,
    req: CloseRequest,
) -> Option<OperationError> {
    if !req.highest_bidder_signed {
        Some(OperationError::MissingRequiredSignature)
    } else {
        match spec_unpack(data) {
            Err(e) => Some(e),
            Ok(rec) => spec_close_check_record(rec, collectible_data, currency_data, req),
        }
    }
}

/// The custody calls an accepted Close orders, all under the custody
/// authority's signature: deliver the full collectible balance to the
/// winner, deliver the full currency balance to the exhibitor's payout
/// destination, then close both emptied temporary accounts, crediting each
/// storage deposit to its original depositor.
pub open spec fn spec_close_actions(
    req: CloseRequest,
    collectible_balance: u64,
    currency_balance: u64,
    authority: Identity,
) -> Seq<TokenAction> {
    seq![
        (TokenAction::Transfer {
            source: req.collectible_custody,
            destination: req.collectible_receive_destination,
            authority,
            custody_signed: true,
            amount: collectible_balance,
        }),
        (TokenAction::Transfer {
            source: req.currency_custody,
            destination: req.payout_destination,
            authority,
            custody_signed: true,
            amount: currency_balance,
        }),
        (TokenAction::CloseAccount {
            account: req.currency_custody,
            rent_destination: req.highest_bidder,
            authority,
            custody_signed: true,
        }),
        (TokenAction::CloseAccount {
            account: req.collectible_custody,
            rent_destination: req.exhibitor,
            authority,
            custody_signed: true,
        }),
    ]
}

pub struct Processor;

impl Processor {
    /// Open an auction over the given escrow storage bytes. On success the
    /// returned outcome holds the packed record to write back and the custody
    /// calls to perform; on failure nothing is to be written or transferred.
    pub fn process_exhibit(escrow_data: &Vec<u8>, req: &ExhibitRequest) -> (r: Result<
        ExhibitOutcome,
        OperationError,
    >)
        ensures
            r is Ok <==> spec_exhibit_check(escrow_data@, *req) is None,
            r matches Err(e) ==> spec_exhibit_check(escrow_data@, *req) == Some(e),
            r matches Ok(out) ==> ({
                &&& out.record == spec_exhibit_record(*req)
                &&& out.escrow_data@ == spec_pack_record(out.record)
                &&& out.actions@ == spec_exhibit_actions(*req, out.custody_authority)
                &&& custody_authority_of(req.program_id@) == Some((out.custody_authority@, out.bump))
                &&& out.record.current_price == req.initial_price
                &&& out.record.auction_end == req.now + req.duration_seconds
                &&& out.record.highest_bidder.is_null()
            }),
    {
        if !req.exhibitor_signed {
            return Err(OperationError::MissingRequiredSignature);
        }
        if req.escrow_lamports < req.rent_minimum_balance {
            return Err(OperationError::Auction(AuctionError::NotRentExempt));
        }
        let stored = match unpack_unchecked(escrow_data) {
            Err(e) => {
                return Err(e);
            },
            Ok(s) => s,
        };
        match stored {
            StoredRecord::Active(_) => {
                return Err(OperationError::AccountAlreadyInitialized);
            },
            StoredRecord::Empty => {},
        }
        let end_wide: i128 = (req.now as i128) + (req.duration_seconds as i128);
        if end_wide > (i64::MAX as i128) {
            return Err(OperationError::Auction(AuctionError::AmountOverflow));
        }
        let auction_end: i64 = end_wide as i64;
        let (custody_authority, bump) = match derive_custody_authority(&req.program_id) {
            None => {
                return Err(OperationError::CustodyAuthorityNotFound);
            },
            Some(p) => p,
        };
        let record = AuctionRecord {
            initialized: true,
            exhibitor: req.exhibitor,
            exhibited_item_custody: req.collectible_custody,
            exhibitor_payout_destination: req.payout_destination,
            current_price: req.initial_price,
            auction_end,
            highest_bidder: Identity::null(),
            highest_bidder_currency_custody: Identity::null(),
            highest_bidder_refund_destination: Identity::null(),
        };
        let escrow_out = pack_record(&record);
        let mut actions: Vec<TokenAction> = Vec::new();
        actions.push(
            TokenAction::Transfer {
                source: req.collectible_source,
                destination: req.collectible_custody,
                authority: req.exhibitor,
                custody_signed: false,
                amount: 1,
            },
        );
        actions.push(
            TokenAction::SetAuthority {
                account: req.collectible_custody,
                new_authority: custody_authority,
                current_authority: req.exhibitor,
                custody_signed: false,
            },
        );
        proof {
            assert(record == spec_exhibit_record(*req));
            assert(actions@ =~= spec_exhibit_actions(*req, custody_authority));
        }
        Ok(ExhibitOutcome { record, escrow_data: escrow_out, actions, custody_authority, bump })
    }

    /// Order the close of an emptied temporary custody account, crediting its
    /// storage deposit to `rent_destination`, under the custody authority's
    /// derived signature.
    pub fn close_temporary_ft(
        account: &Identity,
        rent_destination: &Identity,
        custody_authority: &Identity,
    ) -> (r: TokenAction)
        ensures
            r == (TokenAction::CloseAccount {
                account: *account,
                rent_destination: *rent_destination,
                authority: *custody_authority,
                custody_signed: true,
            }),
    {
        TokenAction::CloseAccount {
            account: *account,
            rent_destination: *rent_destination,
            authority: *custody_authority,
            custody_signed: true,
        }
    }

    /// Place a bid against the given escrow storage bytes. On success the
    /// returned outcome holds the overwritten record, its packed image, and
    /// the custody calls to perform, in order; on failure nothing is to be
    /// written or transferred.
    pub fn process_bid(escrow_data: &Vec<u8>, req: &BidRequest) -> (r: Result<
        BidOutcome,
        OperationError,
    >)
        ensures
            r is Ok <==> spec_bid_check(escrow_data@, *req) is None,
            r matches Err(e) ==> spec_bid_check(escrow_data@, *req) == Some(e),
            r matches Ok(out) ==> ({
                let rec = spec_unpack(escrow_data@)->Ok_0;
                &&& spec_unpack(escrow_data@) is Ok
                &&& out.record == spec_bid_record(rec, *req)
                &&& out.escrow_data@ == spec_pack_record(out.record)
                &&& out.actions@ == spec_bid_actions(rec, *req, out.custody_authority)
                &&& custody_authority_of(req.program_id@) == Some((out.custody_authority@, out.bump))
                &&& out.record.current_price == req.price
                &&& out.record.current_price > rec.current_price
                &&& out.record.auction_end == rec.auction_end
                &&& out.record.highest_bidder == req.bidder
            }),
    {
        if !req.bidder_signed {
            return Err(OperationError::MissingRequiredSignature);
        }
        let rec = match unpack_record(escrow_data) {
            Err(e) => {
                return Err(e);
            },
            Ok(rec) => rec,
        };
        if rec.auction_end <= req.now {
            return Err(OperationError::Auction(AuctionError::InactiveAuction));
        }
        if req.price <= rec.current_price {
            return Err(OperationError::Auction(AuctionError::InsufficientBidPrice));
        }
        if rec.highest_bidder_currency_custody != req.prior_currency_custody {
            return Err(OperationError::Auction(AuctionError::InvalidInstruction));
        }
        if rec.highest_bidder_refund_destination != req.prior_refund_destination {
            return Err(OperationError::Auction(AuctionError::InvalidInstruction));
        }
        if rec.highest_bidder != req.prior_bidder {
            return Err(OperationError::Auction(AuctionError::InvalidInstruction));
        }
        if rec.highest_bidder == req.bidder {
            return Err(OperationError::Auction(AuctionError::AlreadyBid));
        }
        let (custody_authority, bump) = match derive_custody_authority(&req.program_id) {
            None => {
                return Err(OperationError::CustodyAuthorityNotFound);
            },
            Some(p) => p,
        };
        let mut actions: Vec<TokenAction> = Vec::new();
        actions.push(
            TokenAction::Transfer {
                source: req.currency_source,
                destination: req.currency_custody,
                authority: req.bidder,
                custody_signed: false,
                amount: req.price,
            },
        );
        actions.push(
            TokenAction::SetAuthority {
                account: req.currency_custody,
                new_authority: custody_authority,
                current_authority: req.bidder,
                custody_signed: false,
            },
        );
        let null_identity = Identity::null();
        if rec.highest_bidder != null_identity {
            actions.push(
                TokenAction::Transfer {
                    source: rec.highest_bidder_currency_custody,
                    destination: rec.highest_bidder_refund_destination,
                    authority: custody_authority,
                    custody_signed: true,
                    amount: rec.current_price,
                },
            );
            let close_prior = Self::close_temporary_ft(
                &rec.highest_bidder_currency_custody,
                &rec.highest_bidder,
                &custody_authority,
            );
            actions.push(close_prior);
        }
        let record = AuctionRecord {
            current_price: req.price,
            highest_bidder: req.bidder,
            highest_bidder_currency_custody: req.currency_custody,
            highest_bidder_refund_destination: req.currency_source,
            ..rec
        };
        let escrow_out = pack_record(&record);
        proof {
            assert(record == spec_bid_record(rec, *req));
            assert(actions@ =~= spec_bid_actions(rec, *req, custody_authority));
        }
        Ok(BidOutcome { record, escrow_data: escrow_out, actions, custody_authority, bump })
    }

    /// Order the close of the collectible's emptied temporary account and
    /// reclaim the escrow storage: its deposit is consolidated into the
    /// recipient's funding, failing with an overflow error if the sum does
    /// not fit the amount type.
    pub fn close_escrow(
        account: &Identity,
        rent_destination: &Identity,
        custody_authority: &Identity,
        recipient_lamports: u64,
        escrow_lamports: u64,
    ) -> (r: Result<(TokenAction, u64), OperationError>)
        ensures
            recipient_lamports + escrow_lamports <= u64::MAX ==> r == Ok::<
                (TokenAction, u64),
                OperationError,
            >(
                (
                    TokenAction::CloseAccount {
                        account: *account,
                        rent_destination: *rent_destination,
                        authority: *custody_authority,
                        custody_signed: true,
                    },
                    (recipient_lamports + escrow_lamports) as u64,
                ),
            ),
            recipient_lamports + escrow_lamports > u64::MAX ==> r == Err::<
                (TokenAction, u64),
                OperationError,
            >(OperationError::Auction(AuctionError::AmountOverflow)),
    {
        match recipient_lamports.checked_add(escrow_lamports) {
            None => Err(OperationError::Auction(AuctionError::AmountOverflow)),
            Some(total) => Ok(
                (Self::close_temporary_ft(account, rent_destination, custody_authority), total),
            ),
        }
    }

    /// Cancel an auction against the given escrow storage bytes and the byte
    /// image of the collectible's temporary custody account. On success the
    /// returned outcome holds the custody calls to perform and the cleared,
    /// reclaimed escrow storage; on failure nothing is to be written or
    /// transferred.
    pub fn process_cancel(
        escrow_data: &Vec<u8>,
        collectible_custody_data: &Vec<u8>,
        req: &CancelRequest,
    ) -> (r: Result<CancelOutcome, OperationError>)
        ensures
            r is Ok <==> spec_cancel_check(escrow_data@, collectible_custody_data@, *req) is None,
            r matches Err(e) ==> spec_cancel_check(escrow_data@, collectible_custody_data@, *req)
                == Some(e),
            r matches Ok(out) ==> ({
                &&& out.actions@ == spec_cancel_actions(
                    *req,
                    spec_token_amount(collectible_custody_data@),
                    out.custody_authority,
                )
                &&& custody_authority_of(req.program_id@) == Some((out.custody_authority@, out.bump))
                &&& out.escrow_data@ == Seq::<u8>::empty()
                &&& out.escrow_lamports == 0
                &&& out.exhibitor_lamports == req.exhibitor_lamports + req.escrow_lamports
                &&& spec_unpack_unchecked(out.escrow_data@) is Err
            }),
    {
        if !req.exhibitor_signed {
            return Err(OperationError::MissingRequiredSignature);
        }
        let rec = match unpack_record(escrow_data) {
            Err(e) => {
                return Err(e);
            },
            Ok(rec) => rec,
        };
        if rec.exhibitor != req.exhibitor {
            return Err(OperationError::Auction(AuctionError::InvalidInstruction));
        }
        if rec.exhibited_item_custody != req.collectible_custody {
            return Err(OperationError::Auction(AuctionError::InvalidInstruction));
        }
        let null_identity = Identity::null();
        if rec.highest_bidder != null_identity {
            return Err(OperationError::Auction(AuctionError::AlreadyBid));
        }
        let (custody_authority, bump) = match derive_custody_authority(&req.program_id) {
            None => {
                return Err(OperationError::CustodyAuthorityNotFound);
            },
            Some(p) => p,
        };
        let balance = match token_account_amount(collectible_custody_data) {
            None => {
                return Err(OperationError::InvalidAccountData);
            },
            Some(a) => a,
        };
        let (close_action, exhibitor_total) = match Self::close_escrow(
            &req.collectible_custody,
            &req.exhibitor,
            &custody_authority,
            req.exhibitor_lamports,
            req.escrow_lamports,
        ) {
            Err(e) => {
                return Err(e);
            },
            Ok(p) => p,
        };
        let mut actions: Vec<TokenAction> = Vec::new();
        actions.push(
            TokenAction::Transfer {
                source: req.collectible_custody,
                destination: req.collectible_return_destination,
                authority: custody_authority,
                custody_signed: true,
                amount: balance,
            },
        );
        actions.push(close_action);
        proof {
            assert(actions@ =~= spec_cancel_actions(
                *req,
                spec_token_amount(collectible_custody_data@),
                custody_authority,
            ));
        }
        Ok(
            CancelOutcome {
                actions,
                escrow_data: Vec::new(),
                escrow_lamports: 0,
                exhibitor_lamports: exhibitor_total,
                custody_authority,
                bump,
            },
        )
    }

    /// Settle an auction against the given escrow storage bytes and the byte
    /// images of the two temporary custody accounts. On success the returned
    /// outcome holds the custody calls to perform and the cleared, reclaimed
    /// escrow storage; on failure nothing is to be written or transferred.
    pub fn process_close(
        escrow_data: &Vec<u8>,
        collectible_custody_data: &Vec<u8>,
        currency_custody_data: &Vec<u8>,
        req: &CloseRequest,
    ) -> (r: Result<CloseOutcome, OperationError>)
        ensures
            r is Ok <==> spec_close_check(
                escrow_data@,
                collectible_custody_data@,
                currency_custody_data@,
                *req,
            ) is None,
            r matches Err(e) ==> spec_close_check(
                escrow_data@,
                collectible_custody_data@,
                currency_custody_data@,
                *req,
            ) == Some(e),
            r matches Ok(out) ==> ({
                &&& out.actions@ == spec_close_actions(
                    *req,
                    spec_token_amount(collectible_custody_data@),
                    spec_token_amount(currency_custody_data@),
                    out.custody_authority,
                )
                &&& custody_authority_of(req.program_id@) == Some((out.custody_authority@, out.bump))
                &&& out.escrow_data@ == Seq::<u8>::empty()
                &&& out.escrow_lamports == 0
                &&& out.exhibitor_lamports == req.exhibitor_lamports + req.escrow_lamports
                &&& spec_unpack_unchecked(out.escrow_data@) is Err
            }),
    {
        if !req.highest_bidder_signed {
            return Err(OperationError::MissingRequiredSignature);
        }
        let rec = match unpack_record(escrow_data) {
            Err(e) => {
                return Err(e);
            },
            Ok(rec) => rec,
        };
        if rec.auction_end > req.now {
            let remaining_wide: i128 = (rec.auction_end as i128) - (req.now as i128);
            let remaining_seconds: u64 = remaining_wide as u64;
            return Err(OperationError::Auction(AuctionError::ActiveAuction { remaining_seconds }));
        }
        if rec.exhibitor != req.exhibitor {
            return Err(OperationError::Auction(AuctionError::InvalidInstruction));
        }
        if rec.exhibited_item_custody != req.collectible_custody {
            return Err(OperationError::Auction(AuctionError::InvalidInstruction));
        }
        if rec.exhibitor_payout_destination != req.payout_destination {
            return Err(OperationError::Auction(AuctionError::InvalidInstruction));
        }
        if rec.highest_bidder_currency_custody != req.currency_custody {
            return Err(OperationError::Auction(AuctionError::InvalidInstruction));
        }
        if rec.highest_bidder != req.highest_bidder {
            return Err(OperationError::Auction(AuctionError::InvalidInstruction));
        }
        let (custody_authority, bump) = match derive_custody_authority(&req.program_id) {
            None => {
                return Err(OperationError::CustodyAuthorityNotFound);
            },
            Some(p) => p,
        };
        let collectible_balance = match token_account_amount(collectible_custody_data) {
            None => {
                return Err(OperationError::InvalidAccountData);
            },
            Some(a) => a,
        };
        let currency_balance = match token_account_amount(currency_custody_data) {
            None => {
                return Err(OperationError::InvalidAccountData);
            },
            Some(a) => a,
        };
        let (close_collectible_custody, exhibitor_total) = match Self::close_escrow(
            &req.collectible_custody,
            &req.exhibitor,
            &custody_authority,
            req.exhibitor_lamports,
            req.escrow_lamports,
        ) {
            Err(e) => {
                return Err(e);
            },
            Ok(p) => p,
        };
        let mut actions: Vec<TokenAction> = Vec::new();
        actions.push(
            TokenAction::Transfer {
                source: req.collectible_custody,
                destination: req.collectible_receive_destination,
                authority: custody_authority,
                custody_signed: true,
                amount: collectible_balance,
            },
        );
        actions.push(
            TokenAction::Transfer {
                source: req.currency_custody,
                destination: req.payout_destination,
                authority: custody_authority,
                custody_signed: true,
                amount: currency_balance,
            },
        );
        let close_currency_custody = Self::close_temporary_ft(
            &req.currency_custody,
            &req.highest_bidder,
            &custody_authority,
        );
        actions.push(close_currency_custody);
        actions.push(close_collectible_custody);
        proof {
            assert(actions@ =~= spec_close_actions(
                *req,
                spec_token_amount(collectible_custody_data@),
                spec_token_amount(currency_custody_data@),
                custody_authority,
            ));
        }
        Ok(
            CloseOutcome {
                actions,
                escrow_data: Vec::new(),
                escrow_lamports: 0,
                exhibitor_lamports: exhibitor_total,
                custody_authority,
                bump,
            },
        )
    }
}

} // verus!
