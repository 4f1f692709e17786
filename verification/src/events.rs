//! Records that the marketplace publishes for off-chain observers, one per
//! state change. The library builds them; the surrounding process emits
//! them to the ledger's log.

use vstd::prelude::*;

use crate::ledger::Address;

verus! {

/// A marketplace registry was created.
#[derive(Clone, PartialEq, Eq, Debug)]
pub struct MarketplaceInitialized {
    pub marketplace_pubkey: Address,
    pub label: String,
}

/// A listing was created and its asset escrowed.
#[derive(Clone, PartialEq, Eq, Debug)]
pub struct ListingCreated {
    pub listing_pubkey: Address,
    pub label: String,
}

/// A listing was withdrawn before any bid.
#[derive(Clone, PartialEq, Eq, Debug)]
pub struct ListingDelisted {
    pub listing_pubkey: Address,
    pub label: String,
}

/// An ended auction was settled.
#[derive(Clone, PartialEq, Eq, Debug)]
pub struct ListingEnded {
    pub listing_pubkey: Address,
    pub label: String,
}

/// A bid was accepted, with the bid and deadline it produced.
#[derive(Clone, PartialEq, Eq, Debug)]
pub struct BidPlaced {
    pub bidder: Address,
    pub listing: Address,
    pub current_bid: u64,
    pub end_time_in_slots: u64,
    pub label: String,
}

/// A loyalty record was created.
#[derive(Clone, PartialEq, Eq, Debug)]
pub struct UserCreated {
    pub user_pubkey: Address,
    pub label: String,
}

} // verus!
