use crate::codec::{spec_unpack, spec_unpack_unchecked};
use crate::error::{AuctionError, OperationError};
use crate::escrow::{custody_authority_of, spec_token_account_ok, spec_token_amount, TokenAction};
use crate::identity::Identity;
use crate::processor::{
    spec_bid_accepts, spec_bid_actions, spec_bid_check, spec_bid_record, spec_cancel_check,
    spec_close_actions, spec_close_check_record, BidRequest, CancelRequest, CloseRequest,
};
use crate::record::AuctionRecord;
use vstd::prelude::*;

verus! {

/// A chain of records in which each record after the first comes out of an
/// accepted bid against the record before it.
pub open spec fn spec_bid_chain(recs: Seq<AuctionRecord>, reqs: Seq<BidRequest>) -> bool {
    &&& recs.len() == reqs.len() + 1
    &&& forall|i: int|
        #![trigger reqs[i]]
        0 <= i < reqs.len() ==> spec_bid_accepts(recs[i], reqs[i]) && recs[i + 1]
            == spec_bid_record(recs[i], reqs[i])
}

proof fn lemma_price_chain(recs: Seq<AuctionRecord>, reqs: Seq<BidRequest>, i: int, j: int)
    requires
        spec_bid_chain(recs, reqs),
        0 <= i < j < recs.len(),
    ensures
        recs[i].current_price < recs[j].current_price,
    decreases j - i,
{
    assert(spec_bid_accepts(recs[j - 1], reqs[j - 1]));
    if i < j - 1 {
        lemma_price_chain(recs, reqs, i, j - 1);
    }
}

/// Monotonic price: across any chain of accepted bids, the recorded price
/// strictly increases.
pub proof fn lemma_monotonic_price(recs: Seq<AuctionRecord>, reqs: Seq<BidRequest>)
    requires
        spec_bid_chain(recs, reqs),
    ensures
        forall|i: int, j: int|
            #![trigger recs[i], recs[j]]
            0 <= i < j < recs.len() ==> recs[i].current_price < recs[j].current_price,
{
    assert forall|i: int, j: int|
        0 <= i < j < recs.len() implies #[trigger] recs[i].current_price
        < #[trigger] recs[j].current_price by {
        lemma_price_chain(recs, reqs, i, j);
    }
}

/// Refund conservation: when a bid by a recorded (non-null) bidder is
/// outbid by a further accepted bid, the further bid orders a refund of
/// exactly the outbid bid's price, from the outbid bid's custody account to
/// its recorded refund destination, and then orders that custody account
/// closed with its storage deposit credited to the outbid bidder.
pub proof fn lemma_refund_conservation(
    rec0: AuctionRecord,
    req1: BidRequest,
    req2: BidRequest,
    authority: Identity,
)
    requires
        req1.bidder != Identity::spec_null(),
        spec_bid_accepts(rec0, req1),
        spec_bid_accepts(spec_bid_record(rec0, req1), req2),
    ensures
        ({
            let acts = spec_bid_actions(spec_bid_record(rec0, req1), req2, authority);
            &&& acts.len() == 4
            &&& acts[2] == (TokenAction::Transfer {
                source: req1.currency_custody,
                destination: req1.currency_source,
                authority,
                custody_signed: true,
                amount: req1.price,
            })
            &&& acts[3] == (TokenAction::CloseAccount {
                account: req1.currency_custody,
                rent_destination: req1.bidder,
                authority,
                custody_signed: true,
            })
        }),
{
    let rec1 = spec_bid_record(rec0, req1);
    assert(rec1.highest_bidder == req1.bidder);
    assert(rec1.current_price == req1.price);
}

/// No bid after close: a signed bid against an initialized record whose end
/// has been reached reports the inactive-auction error, whatever price is
/// offered.
pub proof fn lemma_no_bid_after_end(data: Seq<u8>, rec: AuctionRecord, req: BidRequest)
    requires
        req.bidder_signed,
        spec_unpack(data) == Ok::<AuctionRecord, OperationError>(rec),
        rec.auction_end <= req.now,
    ensures
        spec_bid_check(data, req) == Some(OperationError::Auction(AuctionError::InactiveAuction)),
{
}

/// No underbid: a signed bid against a live record at or below the recorded
/// price, the recorded price itself included, reports the
/// insufficient-price error.
pub proof fn lemma_no_underbid(data: Seq<u8>, rec: AuctionRecord, req: BidRequest)
    requires
        req.bidder_signed,
        spec_unpack(data) == Ok::<AuctionRecord, OperationError>(rec),
        req.now < rec.auction_end,
        req.price <= rec.current_price,
    ensures
        spec_bid_check(data, req) == Some(
            OperationError::Auction(AuctionError::InsufficientBidPrice),
        ),
{
}

/// Cancellation is possible exactly while no bid has been recorded: with
/// every other precondition met, Cancel is accepted if and only if the
/// record holds no bidder, and otherwise reports the already-bid error.
pub proof fn lemma_cancel_only_before_bid(
    data: Seq<u8>,
    custody_data: Seq<u8>,
    rec: AuctionRecord,
    req: CancelRequest,
)
    requires
        req.exhibitor_signed,
        spec_unpack(data) == Ok::<AuctionRecord, OperationError>(rec),
        rec.exhibitor == req.exhibitor,
        rec.exhibited_item_custody == req.collectible_custody,
        custody_authority_of(req.program_id@) is Some,
        spec_token_account_ok(custody_data),
        req.exhibitor_lamports + req.escrow_lamports <= u64::MAX,
    ensures
        spec_cancel_check(data, custody_data, req) is None <==> rec.highest_bidder
            == Identity::spec_null(),
        rec.highest_bidder != Identity::spec_null() ==> spec_cancel_check(data, custody_data, req)
            == Some(OperationError::Auction(AuctionError::AlreadyBid)),
{
}

/// Settlement atomicity: when every settlement precondition holds, the
/// ordered calls deliver the full recorded collectible balance to the
/// winner's receiving destination and the full recorded currency balance to
/// the exhibitor's payout destination, close both temporary custody
/// accounts crediting each deposit to its original depositor, and the
/// reclaimed (empty) escrow storage no longer parses as a record.
pub proof fn lemma_settlement_atomicity(
    rec: AuctionRecord,
    collectible_data: Seq<u8>,
    currency_data: Seq<u8>,
    req: CloseRequest,
    authority: Identity,
)
    requires
        spec_close_check_record(rec, collectible_data, currency_data, req) is None,
    ensures
        ({
            let acts = spec_close_actions(
                req,
                spec_token_amount(collectible_data),
                spec_token_amount(currency_data),
                authority,
            );
            &&& acts.len() == 4
            &&& acts[0] == (TokenAction::Transfer {
                source: rec.exhibited_item_custody,
                destination: req.collectible_receive_destination,
                authority,
                custody_signed: true,
                amount: spec_token_amount(collectible_data),
            })
            &&& acts[1] == (TokenAction::Transfer {
                source: rec.highest_bidder_currency_custody,
                destination: rec.exhibitor_payout_destination,
                authority,
                custody_signed: true,
                amount: spec_token_amount(currency_data),
            })
            &&& acts[2] == (TokenAction::CloseAccount {
                account: rec.highest_bidder_currency_custody,
                rent_destination: rec.highest_bidder,
                authority,
                custody_signed: true,
            })
            &&& acts[3] == (TokenAction::CloseAccount {
                account: rec.exhibited_item_custody,
                rent_destination: rec.exhibitor,
                authority,
                custody_signed: true,
            })
        }),
        spec_unpack_unchecked(Seq::<u8>::empty()) is Err,
        spec_unpack(Seq::<u8>::empty()) is Err,
{
}

} // verus!
