use vstd::prelude::*;

verus! {

/// The marketplace's own failure codes, one per rule that an operation can
/// break: validation, authorization, auction-state and delisting rules.
#[derive(Clone, Copy, PartialEq, Eq, Structural, Debug)]
pub enum MarketplaceErrorCode {
    /// The marketplace display name is empty or longer than 32 bytes.
    MarketplaceNameTooLong,
    /// Someone other than the highest bidder tried to claim a bid-upon auction.
    ClaimerIsNotHighestBidder,
    /// Someone other than the seller tried to reclaim an unsold auction.
    ClaimerIsNotSeller,
    /// The incoming bidder already is the highest bidder.
    BidderIsHighestBidder,
    /// The listing has already been settled.
    AuctionNotActive,
    /// The current slot lies before the auction's start slot.
    AuctionNotStarted,
    /// The current slot lies after the auction's end slot.
    AuctionEnded,
    /// The current slot lies before the auction's end slot.
    AuctionNotEnded,
    /// The listing was already ended once.
    AuctionAlreadyEnded,
    /// A delisting was attempted while a highest bidder is recorded.
    CannotDelistWithActiveBidder,
    /// A delisting was attempted while the current bid is non-zero.
    CannotDelistWithActiveCurrentBidPrice,
    /// The account offered as the rules-enforced transfer engine is not it.
    InvalidMetadataProgram,
    /// The optimistic-concurrency guard failed: the claimed (highest bidder,
    /// current bid) pair does not match the listing's live state.
    InvalidCurrentHighestBidderAndPrice,
    /// Only the marketplace admin may create or end a listing.
    InvalidListingAuthority,
    /// The user has already claimed tokens.
    AlreadyClaimed,
    /// The requested mint-cost tier is not configured.
    InvalidMintCost,
}

/// Everything an operation can fail with: a marketplace rule
/// ([`MarketplaceErrorCode`]), an arithmetic overflow, a broken account
/// binding that the runtime's account checks would report, or a failure of
/// one of the ledger's own transfer primitives.
#[derive(Clone, Copy, PartialEq, Eq, Structural, Debug)]
pub enum MarketplaceError {
    /// One of the marketplace's own rules was broken.
    Code(MarketplaceErrorCode),
    /// A checked addition, multiplication or power overflowed.
    ArithmeticOverflow,
    /// An account binding declared on the operation does not hold
    /// (for example `has_one` between two accounts).
    ConstraintViolation,
    /// A token or system-program move touched an account that is closed.
    AccountClosed,
    /// The paying account does not hold the amount to be moved.
    InsufficientFunds,
    /// The receiving balance would overflow.
    BalanceOverflow,
    /// A token account was to be closed while still holding tokens.
    AccountNotEmpty,
}

} // verus!
