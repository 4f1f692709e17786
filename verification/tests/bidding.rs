use nft_marketplace::constants::{MINT_AMOUNT_TIER_1, MINT_AMOUNT_TIER_2, MINT_AMOUNT_TIER_3};
use nft_marketplace::constants::{MINT_COST_TIER_1, MINT_COST_TIER_2, MINT_COST_TIER_3};
use nft_marketplace::constants::{MINT_TIER_1_BONUS, MINT_TIER_2_BONUS, MINT_TIER_3_BONUS};
use nft_marketplace::contexts::place_bid::PlaceBid;
use nft_marketplace::errors::{MarketplaceError, MarketplaceErrorCode};
use nft_marketplace::ledger::{Address, TokenAccount};
use nft_marketplace::place_bid;
use nft_marketplace::state::{ListingV2, Marketplace, MintCostTier, MintTier, UserAccount};

fn addr(n: u64) -> Address {
    Address::new(n, 0, 0, 0)
}

fn tiers() -> [MintTier; 3] {
    [
        MintTier {
            tier: MintCostTier::Tier1,
            amount: MINT_AMOUNT_TIER_1,
            cost: MINT_COST_TIER_1,
            bonus: MINT_TIER_1_BONUS,
        },
        MintTier {
            tier: MintCostTier::Tier2,
            amount: MINT_AMOUNT_TIER_2,
            cost: MINT_COST_TIER_2,
            bonus: MINT_TIER_2_BONUS,
        },
        MintTier {
            tier: MintCostTier::Tier3,
            amount: MINT_AMOUNT_TIER_3,
            cost: MINT_COST_TIER_3,
            bonus: MINT_TIER_3_BONUS,
        },
    ]
}

fn marketplace() -> Marketplace {
    Marketplace {
        admin: addr(1),
        sbid_mint: addr(3),
        treasury: addr(6),
        fee: 250,
        name: "auction_house".to_string(),
        mint_tiers: tiers(),
        bump: 254,
        treasury_bump: 253,
    }
}

fn fresh_listing() -> ListingV2 {
    ListingV2 {
        mint: addr(4),
        seller: addr(2),
        bid_cost: 1,
        bid_increment: 10,
        current_bid: 0,
        highest_bidder: Address::default(),
        timer_extension_in_slots: 10,
        start_time_in_slots: 100,
        end_time_in_slots: 150,
        is_active: true,
        buyout_price: 1000,
        seed: 0,
        bump: 255,
    }
}

fn bid_ctx(bidder: Address, listing: ListingV2, slot: u64) -> PlaceBid {
    PlaceBid {
        bidder,
        user_account: UserAccount::new(7),
        sbid_mint: addr(3),
        sbid_decimals: 6,
        bidder_sbid_ata: TokenAccount::open_with(10_000_000),
        mint: listing.mint,
        listing,
        listing_pubkey: addr(50),
        marketplace: marketplace(),
        current_slot: slot,
    }
}

fn code(c: MarketplaceErrorCode) -> Result<(), MarketplaceError> {
    Err(MarketplaceError::Code(c))
}

#[test]
fn first_bid_raises_bid_and_extends_deadline() {
    let a = addr(10);
    let mut ctx = bid_ctx(a, fresh_listing(), 120);
    let r = place_bid(&mut ctx, Address::default(), 0);
    assert_eq!(r, Ok(()));
    assert_eq!(ctx.listing.current_bid, 10);
    assert_eq!(ctx.listing.highest_bidder, a);
    assert_eq!(ctx.listing.end_time_in_slots, 160);
    assert!(ctx.listing.is_active);
    // One bid cost, scaled by six decimals, burned out of the credit account.
    assert_eq!(ctx.bidder_sbid_ata.amount, 9_000_000);
    // Tier-1 reward and the bid counted.
    assert_eq!(ctx.user_account.points, 1);
    assert_eq!(ctx.user_account.total_bids_placed, 1);
}

#[test]
fn auction_scenario_two_bidders_with_stale_claim() {
    // Listing: start 100, duration 50, increment 10, buyout 1000.
    let a = addr(10);
    let b = addr(11);

    // Bidder A bids at slot 120 claiming (empty, 0).
    let mut ctx_a = bid_ctx(a, fresh_listing(), 120);
    assert_eq!(place_bid(&mut ctx_a, Address::default(), 0), Ok(()));
    assert_eq!(ctx_a.listing.current_bid, 10);
    assert_eq!(ctx_a.listing.highest_bidder, a);
    assert_eq!(ctx_a.listing.end_time_in_slots, 160);

    // Bidder B bids at slot 151 with the stale claim (empty, 0): the
    // concurrency guard fails the bid and changes nothing.
    let mut ctx_b = bid_ctx(b, ctx_a.listing, 151);
    let before = ctx_b.listing;
    let r = place_bid(&mut ctx_b, Address::default(), 0);
    assert_eq!(r, code(MarketplaceErrorCode::InvalidCurrentHighestBidderAndPrice));
    assert_eq!(ctx_b.listing, before);
    assert_eq!(ctx_b.bidder_sbid_ata.amount, 10_000_000);
    assert_eq!(ctx_b.user_account.points, 0);

    // B retries with the refreshed claim (A, 10) inside the extended
    // deadline and succeeds.
    let r = place_bid(&mut ctx_b, a, 10);
    assert_eq!(r, Ok(()));
    assert_eq!(ctx_b.listing.current_bid, 20);
    assert_eq!(ctx_b.listing.highest_bidder, b);
    assert_eq!(ctx_b.listing.end_time_in_slots, 170);
}

#[test]
fn bid_before_start_is_rejected() {
    let mut ctx = bid_ctx(addr(10), fresh_listing(), 99);
    assert_eq!(
        place_bid(&mut ctx, Address::default(), 0),
        code(MarketplaceErrorCode::AuctionNotStarted)
    );
    assert_eq!(ctx.listing, fresh_listing());
}

#[test]
fn bid_after_deadline_is_rejected() {
    let mut ctx = bid_ctx(addr(10), fresh_listing(), 151);
    assert_eq!(
        place_bid(&mut ctx, Address::default(), 0),
        code(MarketplaceErrorCode::AuctionEnded)
    );
}

#[test]
fn bid_on_inactive_listing_is_rejected() {
    let mut listing = fresh_listing();
    listing.is_active = false;
    let mut ctx = bid_ctx(addr(10), listing, 120);
    assert_eq!(
        place_bid(&mut ctx, Address::default(), 0),
        code(MarketplaceErrorCode::AuctionNotActive)
    );
}

#[test]
fn highest_bidder_cannot_outbid_themselves() {
    let a = addr(10);
    let mut listing = fresh_listing();
    listing.current_bid = 10;
    listing.highest_bidder = a;
    let mut ctx = bid_ctx(a, listing, 130);
    assert_eq!(place_bid(&mut ctx, a, 10), code(MarketplaceErrorCode::BidderIsHighestBidder));
}

#[test]
fn bid_without_credits_fails_and_rolls_back() {
    let mut ctx = bid_ctx(addr(10), fresh_listing(), 120);
    ctx.bidder_sbid_ata = TokenAccount::open_with(999_999);
    let r = place_bid(&mut ctx, Address::default(), 0);
    assert_eq!(r, Err(MarketplaceError::InsufficientFunds));
    assert_eq!(ctx.listing, fresh_listing());
    assert_eq!(ctx.bidder_sbid_ata.amount, 999_999);
}

#[test]
fn oversized_decimals_overflow_the_burn_scaling() {
    let mut ctx = bid_ctx(addr(10), fresh_listing(), 120);
    ctx.sbid_decimals = 20;
    assert_eq!(
        place_bid(&mut ctx, Address::default(), 0),
        Err(MarketplaceError::ArithmeticOverflow)
    );
}

#[test]
fn bid_increment_overflow_fails_and_rolls_back_the_burn() {
    let mut listing = fresh_listing();
    listing.current_bid = u64::MAX - 5;
    listing.bid_increment = 10;
    listing.highest_bidder = addr(11);
    let mut ctx = bid_ctx(addr(10), listing, 120);
    let r = place_bid(&mut ctx, addr(11), u64::MAX - 5);
    assert_eq!(r, Err(MarketplaceError::ArithmeticOverflow));
    // The burn had already happened in memory; the operation puts it back.
    assert_eq!(ctx.bidder_sbid_ata.amount, 10_000_000);
    assert_eq!(ctx.listing, listing);
}

#[test]
fn deadline_extension_overflow_fails() {
    let mut listing = fresh_listing();
    listing.end_time_in_slots = u64::MAX - 5;
    listing.timer_extension_in_slots = 10;
    let mut ctx = bid_ctx(addr(10), listing, u64::MAX - 6);
    let r = place_bid(&mut ctx, Address::default(), 0);
    assert_eq!(r, Err(MarketplaceError::ArithmeticOverflow));
    assert_eq!(ctx.listing, listing);
}

#[test]
fn reward_overflow_fails_the_whole_bid() {
    let mut ctx = bid_ctx(addr(10), fresh_listing(), 120);
    ctx.user_account.points = u32::MAX;
    let r = place_bid(&mut ctx, Address::default(), 0);
    assert_eq!(r, Err(MarketplaceError::ArithmeticOverflow));
    // The whole operation rolled back: no bid, no burn, no counter change.
    assert_eq!(ctx.listing, fresh_listing());
    assert_eq!(ctx.bidder_sbid_ata.amount, 10_000_000);
    assert_eq!(ctx.user_account.total_bids_placed, 0);
}

#[test]
fn bid_counter_overflow_fails_the_whole_bid() {
    let mut ctx = bid_ctx(addr(10), fresh_listing(), 120);
    ctx.user_account.total_bids_placed = u32::MAX;
    let r = place_bid(&mut ctx, Address::default(), 0);
    assert_eq!(r, Err(MarketplaceError::ArithmeticOverflow));
    assert_eq!(ctx.listing, fresh_listing());
}

#[test]
fn mismatched_asset_binding_is_rejected() {
    let mut ctx = bid_ctx(addr(10), fresh_listing(), 120);
    ctx.mint = addr(99);
    assert_eq!(
        place_bid(&mut ctx, Address::default(), 0),
        Err(MarketplaceError::ConstraintViolation)
    );
}

#[test]
fn mismatched_credit_asset_binding_is_rejected() {
    let mut ctx = bid_ctx(addr(10), fresh_listing(), 120);
    ctx.sbid_mint = addr(99);
    assert_eq!(
        place_bid(&mut ctx, Address::default(), 0),
        Err(MarketplaceError::ConstraintViolation)
    );
}

#[test]
fn stale_bid_amount_alone_trips_the_guard() {
    let a = addr(10);
    let mut listing = fresh_listing();
    listing.current_bid = 20;
    listing.highest_bidder = a;
    let mut ctx = bid_ctx(addr(11), listing, 130);
    assert_eq!(
        place_bid(&mut ctx, a, 10),
        code(MarketplaceErrorCode::InvalidCurrentHighestBidderAndPrice)
    );
}

#[test]
fn bid_placed_event_carries_the_new_bid() {
    let a = addr(10);
    let mut ctx = bid_ctx(a, fresh_listing(), 120);
    assert_eq!(place_bid(&mut ctx, Address::default(), 0), Ok(()));
    let event = ctx.emit_bid_placed();
    assert_eq!(event.bidder, a);
    assert_eq!(event.listing, addr(50));
    assert_eq!(event.current_bid, 10);
    assert_eq!(event.end_time_in_slots, 160);
    assert_eq!(event.label, "bid_placed".to_string());
}
