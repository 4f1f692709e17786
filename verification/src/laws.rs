//! The protocol-wide guarantees of the marketplace, each proved from the
//! operations' own contracts: bids only ever raise the current bid and
//! push the deadline out, the buyout fee split is exact, and loyalty
//! records only ever grow.

use vstd::prelude::*;

use crate::contexts::end_listing::EndListing;
use crate::contexts::list::List;
use crate::contexts::mint_bid_token::MintBidToken;
use crate::contexts::place_bid::PlaceBid;
use crate::contexts::purchase::spec_fee_amount;
use crate::errors::MarketplaceError;
use crate::ledger::Address;
use crate::state::{ListingV2, MintCostTier};
use crate::{spec_end_listing_op, spec_list_op, spec_mint_bid_token_op, spec_place_bid_op};

verus! {

/// What one successful bid by `bidder` does to a listing record: the
/// current bid grows by exactly the listing's bid increment, the deadline
/// moves out by exactly the timer extension, the bidder becomes highest
/// bidder, and nothing else changes.
pub open spec fn listing_bid_step(pre: ListingV2, post: ListingV2, bidder: Address) -> bool {
    &&& pre.current_bid + pre.bid_increment <= u64::MAX
    &&& pre.end_time_in_slots + pre.timer_extension_in_slots <= u64::MAX
    &&& post == ListingV2 {
        current_bid: (pre.current_bid + pre.bid_increment) as u64,
        highest_bidder: bidder,
        end_time_in_slots: (pre.end_time_in_slots + pre.timer_extension_in_slots) as u64,
        ..pre
    }
}

/// Every successful place-bid operation performs a [`listing_bid_step`] on
/// its listing: the current bid grows by exactly the bid increment and the
/// deadline by exactly the timer extension.
pub proof fn lemma_place_bid_is_bid_step(
    ctx: PlaceBid,
    highest_bidder: Address,
    current_bid: u64,
    next: PlaceBid,
)
    requires
        spec_place_bid_op(ctx, highest_bidder, current_bid) == Ok::<PlaceBid, MarketplaceError>(
            next,
        ),
    ensures
        listing_bid_step(ctx.listing, next.listing, ctx.bidder),
        next.listing.current_bid == ctx.listing.current_bid + ctx.listing.bid_increment,
        next.listing.end_time_in_slots == ctx.listing.end_time_in_slots
            + ctx.listing.timer_extension_in_slots,
        next.listing.highest_bidder == ctx.bidder,
{
}

/// Along any chain of successful bids on one listing, the current bid and
/// the deadline are non-decreasing, and the bid increment itself never
/// changes: whatever two points of the chain are compared, the later one
/// bids at least as much and closes no earlier.
pub proof fn lemma_bid_chain_monotonic(
    states: Seq<ListingV2>,
    bidders: Seq<Address>,
    i: int,
    j: int,
)
    requires
        states.len() == bidders.len() + 1,
        forall|k: int|
            0 <= k < bidders.len() ==> listing_bid_step(states[k], states[k + 1], bidders[k]),
        0 <= i <= j < states.len(),
    ensures
        states[i].current_bid <= states[j].current_bid,
        states[i].end_time_in_slots <= states[j].end_time_in_slots,
        states[j].bid_increment == states[i].bid_increment,
        states[j].timer_extension_in_slots == states[i].timer_extension_in_slots,
    decreases j - i,
{
    if i < j {
        lemma_bid_chain_monotonic(states, bidders, i, j - 1);
        assert(listing_bid_step(states[j - 1], states[j], bidders[j - 1]));
    }
}

/// A bid never settles or revives a listing: a successful bid leaves the
/// active flag exactly as it found it — true, since only live auctions
/// accept bids.
pub proof fn lemma_bid_preserves_activity(
    ctx: PlaceBid,
    highest_bidder: Address,
    current_bid: u64,
    next: PlaceBid,
)
    requires
        spec_place_bid_op(ctx, highest_bidder, current_bid) == Ok::<PlaceBid, MarketplaceError>(
            next,
        ),
    ensures
        ctx.listing.is_active,
        next.listing.is_active,
{
}

/// Settlement deactivates: a successful settlement finds the listing
/// active and leaves it inactive, so a second settlement of the same
/// listing is rejected.
pub proof fn lemma_settlement_deactivates(
    ctx: EndListing,
    amount: u64,
    route: Option<Address>,
    next: EndListing,
)
    requires
        spec_end_listing_op(ctx, amount, route) == Ok::<EndListing, MarketplaceError>(next),
    ensures
        ctx.listing.is_active,
        !next.listing.is_active,
        spec_end_listing_op(EndListing { listing: next.listing, ..ctx }, amount, route)
            == Err::<EndListing, MarketplaceError>(
            MarketplaceError::Code(crate::errors::MarketplaceErrorCode::AuctionEnded),
        ),
{
}

/// A bid whose claimed (highest bidder, current bid) pair does not match
/// the live state always fails with the concurrency-mismatch error, for
/// every live listing with sound account bindings; the operation's own
/// contract then guarantees the listing is left unchanged.
pub proof fn lemma_stale_claim_is_rejected(
    ctx: PlaceBid,
    highest_bidder: Address,
    current_bid: u64,
)
    requires
        ctx.mint == ctx.listing.mint,
        ctx.marketplace.sbid_mint == ctx.sbid_mint,
        ctx.listing.live_at(ctx.current_slot),
        !ctx.listing.claim_matches(highest_bidder, current_bid),
    ensures
        spec_place_bid_op(ctx, highest_bidder, current_bid) == Err::<PlaceBid, MarketplaceError>(
            MarketplaceError::Code(
                crate::errors::MarketplaceErrorCode::InvalidCurrentHighestBidderAndPrice,
            ),
        ),
{
}

/// A freshly created listing starts clean: its deadline is its start plus
/// the initial duration and so never precedes the start, no bid and no
/// bidder are on record — so it is still withdrawable — and it is active.
pub proof fn lemma_created_listing_starts_clean(
    ctx: List,
    seed: u64,
    bid_increment: u64,
    timer_extension_in_slots: u64,
    start_time_in_slots: u64,
    initial_duration_in_slots: u64,
    buyout_price: u64,
    bumps: crate::contexts::list::ListBumps,
    created: ListingV2,
)
    requires
        ctx.spec_create_listing(
            seed,
            bid_increment,
            timer_extension_in_slots,
            start_time_in_slots,
            initial_duration_in_slots,
            buyout_price,
            bumps,
        ) == Ok::<ListingV2, MarketplaceError>(created),
    ensures
        created.end_time_in_slots == start_time_in_slots + initial_duration_in_slots,
        created.end_time_in_slots >= created.start_time_in_slots,
        created.current_bid == 0,
        created.highest_bidder.is_empty(),
        created.delist_eligible(),
        created.is_active,
        created.bid_cost == 1,
{
}

/// The buyout fee split is exact: for every buyout price and every fee
/// within the ten-thousand basis points, the treasury's fee is the price
/// times the fee rounded down, it never exceeds the price, and fee plus
/// seller proceeds rebuild the price to the unit.
pub proof fn lemma_fee_split(buyout_price: u64, fee_bps: u16)
    requires
        fee_bps <= 10000,
        buyout_price * fee_bps <= u64::MAX,
    ensures
        spec_fee_amount(buyout_price, fee_bps) == Some(
            ((buyout_price * fee_bps) / 10000) as u64,
        ),
        (buyout_price * fee_bps) / 10000 <= buyout_price,
        ((buyout_price * fee_bps) / 10000) + (buyout_price - (buyout_price * fee_bps) / 10000)
            == buyout_price,
{
    assert((buyout_price * fee_bps) / 10000 <= buyout_price) by (nonlinear_arith)
        requires
            fee_bps <= 10000,
    ;
}

/// A successful bid never shrinks the bidder's loyalty record: the points
/// balance and every lifetime counter come out at least as large, and the
/// bid counter exactly one larger.
pub proof fn lemma_place_bid_rewards_monotonic(
    ctx: PlaceBid,
    highest_bidder: Address,
    current_bid: u64,
    next: PlaceBid,
)
    requires
        spec_place_bid_op(ctx, highest_bidder, current_bid) == Ok::<PlaceBid, MarketplaceError>(
            next,
        ),
    ensures
        next.user_account.points == ctx.user_account.points + crate::constants::REWARD_TIER_1,
        next.user_account.total_bids_placed == ctx.user_account.total_bids_placed + 1,
        next.user_account.total_auctions_participated
            >= ctx.user_account.total_auctions_participated,
        next.user_account.total_auctions_won >= ctx.user_account.total_auctions_won,
        next.user_account.total_auctions_created >= ctx.user_account.total_auctions_created,
{
}

/// A successful listing creation never shrinks the seller's loyalty
/// record: the points balance grows by the tier-2 grant and the created
/// counter by one, the other counters stay.
pub proof fn lemma_list_rewards_monotonic(
    ctx: List,
    seed: u64,
    bid_increment: u64,
    timer_extension_in_slots: u64,
    start_time_in_slots: u64,
    initial_duration_in_slots: u64,
    buyout_price: u64,
    amount: u64,
    route: Option<Address>,
    next: List,
)
    requires
        spec_list_op(
            ctx,
            seed,
            bid_increment,
            timer_extension_in_slots,
            start_time_in_slots,
            initial_duration_in_slots,
            buyout_price,
            amount,
            route,
        ) == Ok::<List, MarketplaceError>(next),
    ensures
        next.user_account.points == ctx.user_account.points + crate::constants::REWARD_TIER_2,
        next.user_account.total_auctions_created == ctx.user_account.total_auctions_created + 1,
        next.user_account.total_bids_placed >= ctx.user_account.total_bids_placed,
        next.user_account.total_auctions_participated
            >= ctx.user_account.total_auctions_participated,
        next.user_account.total_auctions_won >= ctx.user_account.total_auctions_won,
{
}

/// A successful settlement never shrinks the claimer's loyalty record: the
/// points balance grows by the tier-3 grant and the won counter by one,
/// the other counters stay.
pub proof fn lemma_end_listing_rewards_monotonic(
    ctx: EndListing,
    amount: u64,
    route: Option<Address>,
    next: EndListing,
)
    requires
        spec_end_listing_op(ctx, amount, route) == Ok::<EndListing, MarketplaceError>(next),
    ensures
        next.user_account.points == ctx.user_account.points + crate::constants::REWARD_TIER_3,
        next.user_account.total_auctions_won == ctx.user_account.total_auctions_won + 1,
        next.user_account.total_bids_placed >= ctx.user_account.total_bids_placed,
        next.user_account.total_auctions_participated
            >= ctx.user_account.total_auctions_participated,
        next.user_account.total_auctions_created >= ctx.user_account.total_auctions_created,
{
}

/// A successful credit purchase never shrinks the buyer's loyalty record:
/// the points balance grows by the tier-1 grant and every counter stays.
pub proof fn lemma_mint_bid_token_rewards_monotonic(
    ctx: MintBidToken,
    tier: MintCostTier,
    next: MintBidToken,
)
    requires
        spec_mint_bid_token_op(ctx, tier) == Ok::<MintBidToken, MarketplaceError>(next),
    ensures
        next.user_account.points == ctx.user_account.points + crate::constants::REWARD_TIER_1,
        next.user_account.total_bids_placed == ctx.user_account.total_bids_placed,
        next.user_account.total_auctions_participated
            == ctx.user_account.total_auctions_participated,
        next.user_account.total_auctions_won == ctx.user_account.total_auctions_won,
        next.user_account.total_auctions_created == ctx.user_account.total_auctions_created,
{
}

} // verus!
