use vstd::prelude::*;

verus! {

/// The auction's own failure taxonomy. `ActiveAuction` reports how many
/// seconds remain until the auction can be settled.
#[derive(Clone, Copy, PartialEq, Eq, Structural, Debug)]
pub enum AuctionError {
    InvalidInstruction,
    NotRentExempt,
    ExpectedAmountMismatch,
    AmountOverflow,
    InsufficientBidPrice,
    AlreadyBid,
    InactiveAuction,
    ActiveAuction { remaining_seconds: u64 },
    NoBidderFound,
}

/// Everything an operation can report: the auction taxonomy, plus the
/// environment-level failures the operations detect themselves.
#[derive(Clone, Copy, PartialEq, Eq, Structural, Debug)]
pub enum OperationError {
    /// A failure of the auction's own rules.
    Auction(AuctionError),
    /// The operation's caller has not signed.
    MissingRequiredSignature,
    /// Open attempted on storage that already holds an initialized record.
    AccountAlreadyInitialized,
    /// An operation other than Open attempted on storage that holds no
    /// initialized record.
    UninitializedAccount,
    /// Storage bytes that parse neither as a record nor as a token account.
    InvalidAccountData,
    /// No custody-authority address could be derived for the program.
    CustodyAuthorityNotFound,
}

} // verus!
