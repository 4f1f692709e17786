//! Fixed amounts and event labels of the marketplace.

use vstd::prelude::*;

verus! {

/// Base units of the ledger's native currency in one whole coin.
pub const LAMPORTS_PER_SOL: u64 = 1_000_000_000;

pub const MS_IN_SEC: i64 = 1000;

pub const MARKET_INITIALIZED_LABEL: &'static str = "market_initialized";

pub const LISTING_CREATED_LABEL: &'static str = "listing_created";

pub const LISTING_ENDED_LABEL: &'static str = "listing_ended";

pub const LISTING_DELISTED_LABEL: &'static str = "listing_delisted";

pub const BID_PLACED_LABEL: &'static str = "bid_placed";

pub const USER_CREATED_LABEL: &'static str = "user_created";

/// Points granted for placing a bid or buying bid credits.
pub const REWARD_TIER_1: u32 = 1;

/// Points granted for creating a listing.
pub const REWARD_TIER_2: u32 = 10;

/// Points granted for winning an auction.
pub const REWARD_TIER_3: u32 = 50;

/// Bid-credit base units granted by each tier (six-decimal asset).
pub const MINT_AMOUNT_TIER_1: u64 = 75 * 1_000_000;

pub const MINT_AMOUNT_TIER_2: u64 = 200 * 1_000_000;

pub const MINT_AMOUNT_TIER_3: u64 = 500 * 1_000_000;

/// Native-currency cost of each tier.
pub const MINT_COST_TIER_1: u64 = LAMPORTS_PER_SOL * 1_000 / 10_000;

pub const MINT_COST_TIER_2: u64 = LAMPORTS_PER_SOL * 2_000 / 10_000;

pub const MINT_COST_TIER_3: u64 = LAMPORTS_PER_SOL * 4_000 / 10_000;

/// Extra bid-credit base units granted on top of each tier's amount.
pub const MINT_TIER_1_BONUS: u64 = 10 * 1_000_000;

pub const MINT_TIER_2_BONUS: u64 = 25 * 1_000_000;

pub const MINT_TIER_3_BONUS: u64 = 100 * 1_000_000;

} // verus!
