//! Persisted records of the marketplace: the per-marketplace registry, the
//! per-auction listing (in its earlier and current layout), and the
//! per-participant loyalty record.

use vstd::prelude::*;

use crate::ledger::Address;

verus! {

/// Selector for one of the three configured mint-cost tiers.
#[derive(Clone, Copy, PartialEq, Eq, Structural, Debug)]
pub enum MintCostTier {
    Tier1,
    Tier2,
    Tier3,
}

/// One configured way to buy bid credits: paying `cost` native units grants
/// `amount` credits plus `bonus` extra credits.
#[derive(Clone, Copy, PartialEq, Eq, Structural, Debug)]
pub struct MintTier {
    /// Which tier this entry configures.
    pub tier: MintCostTier,
    /// Bid-credit base units granted.
    pub amount: u64,
    /// Native-currency cost, in the ledger's base units.
    pub cost: u64,
    /// Extra bid-credit base units granted on top of `amount`.
    pub bonus: u64,
}

/// The per-marketplace registry: admin identity, bid-credit asset, treasury,
/// basis-point fee, display name and the three mint-cost tiers.
#[derive(Clone, PartialEq, Eq, Debug)]
pub struct Marketplace {
    /// Identity allowed to create and end listings and to update the tiers.
    pub admin: Address,
    /// The bid-credit asset this marketplace burns one bid cost of per bid.
    pub sbid_mint: Address,
    /// Custody account receiving marketplace fees and bid proceeds.
    pub treasury: Address,
    /// Buyout fee in basis points.
    pub fee: u16,
    /// Display name; between 1 and 32 bytes.
    pub name: String,
    /// The three configured ways to buy bid credits.
    pub mint_tiers: [MintTier; 3],
    /// Derivation bump of the registry's own address.
    pub bump: u8,
    /// Derivation bump of the treasury's address.
    pub treasury_bump: u8,
}

/// Earlier listing layout, kept for auctions created before `seed`
/// disambiguation was introduced.
#[derive(Clone, Copy, PartialEq, Eq, Structural, Debug)]
pub struct Listing {
    /// Asset being auctioned.
    pub mint: Address,
    /// Identity that listed the asset.
    pub seller: Address,
    /// Bid credits burned per bid, before decimal scaling.
    pub bid_cost: u64,
    /// How much each bid raises the current bid.
    pub bid_increment: u64,
    /// Highest bid so far; zero until the first bid.
    pub current_bid: u64,
    /// Identity of the highest bidder; the empty address until the first bid.
    pub highest_bidder: Address,
    /// Slots added to the deadline by each bid.
    pub timer_extension_in_slots: u64,
    /// Slot at which bidding opens.
    pub start_time_in_slots: u64,
    /// Slot after which bidding closes; grows with each bid.
    pub end_time_in_slots: u64,
    /// True until the auction is settled.
    pub is_active: bool,
    /// Price at which the asset can be bought outright.
    pub buyout_price: u64,
    /// Derivation bump of the listing's address.
    pub bump: u8,
}

/// Current listing layout: one auction of one asset unit, disambiguated from
/// other listings of the same asset by the same seller through `seed`.
#[derive(Clone, Copy, PartialEq, Eq, Structural, Debug)]
pub struct ListingV2 {
    /// Asset being auctioned.
    pub mint: Address,
    /// Identity that listed the asset.
    pub seller: Address,
    /// Bid credits burned per bid, before decimal scaling.
    pub bid_cost: u64,
    /// How much each bid raises the current bid.
    pub bid_increment: u64,
    /// Highest bid so far; zero until the first bid.
    pub current_bid: u64,
    /// Identity of the highest bidder; the empty address until the first bid.
    pub highest_bidder: Address,
    /// Slots added to the deadline by each bid.
    pub timer_extension_in_slots: u64,
    /// Slot at which bidding opens.
    pub start_time_in_slots: u64,
    /// Slot after which bidding closes; grows with each bid.
    pub end_time_in_slots: u64,
    /// True until the auction is settled.
    pub is_active: bool,
    /// Price at which the asset can be bought outright.
    pub buyout_price: u64,
    /// Disambiguates listings of one asset by one seller.
    pub seed: u64,
    /// Derivation bump of the listing's address.
    pub bump: u8,
}

impl ListingV2 {
    /// Whether the auction accepts bids at `slot`: still active, already
    /// started and not yet past its deadline.
    pub open spec fn live_at(self, slot: u64) -> bool {
        self.is_active && self.start_time_in_slots <= slot && slot <= self.end_time_in_slots
    }

    /// Whether the auction's deadline has passed at `slot`.
    pub open spec fn ended_at(self, slot: u64) -> bool {
        slot >= self.end_time_in_slots
    }

    /// Whether the claimed (highest bidder, current bid) pair matches the
    /// listing's live state — the optimistic-concurrency guard.
    pub open spec fn claim_matches(self, claimed_bidder: Address, claimed_bid: u64) -> bool {
        self.highest_bidder == claimed_bidder && self.current_bid == claimed_bid
    }

    /// Whether the listing may still be withdrawn: no bid was ever placed.
    pub open spec fn delist_eligible(self) -> bool {
        self.highest_bidder.is_empty() && self.current_bid == 0
    }
}

/// Per-participant loyalty record: lifetime counters and a points balance.
/// Every field only ever grows, and every grant is overflow-checked.
#[derive(Clone, Copy, PartialEq, Eq, Structural, Debug)]
pub struct UserAccount {
    /// Lifetime number of bids placed.
    pub total_bids_placed: u32,
    /// Lifetime number of auctions participated in.
    pub total_auctions_participated: u32,
    /// Lifetime number of auctions won.
    pub total_auctions_won: u32,
    /// Lifetime number of auctions created.
    pub total_auctions_created: u32,
    /// Loyalty points balance.
    pub points: u32,
    /// Derivation bump of the record's address.
    pub bump: u8,
}

impl UserAccount {
    /// A fresh record with all counters at zero.
    pub fn new(bump: u8) -> (r: UserAccount)
        ensures
            r == (UserAccount {
                total_bids_placed: 0,
                total_auctions_participated: 0,
                total_auctions_won: 0,
                total_auctions_created: 0,
                points: 0,
                bump,
            }),
    {
        UserAccount {
            total_bids_placed: 0,
            total_auctions_participated: 0,
            total_auctions_won: 0,
            total_auctions_created: 0,
            points: 0,
            bump,
        }
    }
}

} // verus!
