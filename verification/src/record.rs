use crate::identity::Identity;
use vstd::prelude::*;

verus! {

/// The persisted state describing one auction: its configuration and the
/// current highest bid. `highest_bidder` is the null identity for as long as
/// no bid has been accepted; the three highest-bidder fields are null
/// together.
#[derive(Clone, Copy, PartialEq, Eq, Structural, Debug)]
pub struct AuctionRecord {
    /// Guards against re-initialization; false only in a record that was
    /// parsed from storage never written by Open.
    pub initialized: bool,
    /// The party who opened the auction; receives the currency proceeds.
    pub exhibitor: Identity,
    /// Temporary custody location holding the collectible while escrowed.
    pub exhibited_item_custody: Identity,
    /// Where the currency proceeds are delivered on settlement.
    pub exhibitor_payout_destination: Identity,
    /// The current bid price; the initial asking price before any bid.
    pub current_price: u64,
    /// Seconds timestamp; the inclusive start of the closed state.
    pub auction_end: i64,
    /// The currently winning bidder, or null before any bid.
    pub highest_bidder: Identity,
    /// Temporary custody location holding that bidder's escrowed currency.
    pub highest_bidder_currency_custody: Identity,
    /// Where that bidder's currency is returned if the bidder is outbid.
    pub highest_bidder_refund_destination: Identity,
}

/// What one piece of escrow storage holds once parsed: nothing yet, or a
/// live auction record.
#[derive(Clone, Copy, PartialEq, Eq, Structural, Debug)]
pub enum StoredRecord {
    Empty,
    Active(AuctionRecord),
}

} // verus!
