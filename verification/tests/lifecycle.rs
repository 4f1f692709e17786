use nft_marketplace::contexts::delist::Delist;
use nft_marketplace::contexts::end_listing::{EndListing, EndListingBumps};
use nft_marketplace::contexts::list::{List, ListBumps};
use nft_marketplace::errors::{MarketplaceError, MarketplaceErrorCode};
use nft_marketplace::ledger::{Address, TokenAccount};
use nft_marketplace::state::{ListingV2, Marketplace, MintCostTier, MintTier, UserAccount};
use nft_marketplace::{delist, end_listing, list};

fn addr(n: u64) -> Address {
    Address::new(n, 0, 0, 0)
}

fn tiers() -> [MintTier; 3] {
    [
        MintTier { tier: MintCostTier::Tier1, amount: 75, cost: 100, bonus: 10 },
        MintTier { tier: MintCostTier::Tier2, amount: 200, cost: 200, bonus: 25 },
        MintTier { tier: MintCostTier::Tier3, amount: 500, cost: 400, bonus: 100 },
    ]
}

fn marketplace() -> Marketplace {
    Marketplace {
        admin: addr(1),
        sbid_mint: addr(3),
        treasury: addr(6),
        fee: 250,
        name: "auction_house".to_string(),
        mint_tiers: tiers(),
        bump: 254,
        treasury_bump: 253,
    }
}

fn placeholder_listing() -> ListingV2 {
    ListingV2 {
        mint: Address::default(),
        seller: Address::default(),
        bid_cost: 0,
        bid_increment: 0,
        current_bid: 0,
        highest_bidder: Address::default(),
        timer_extension_in_slots: 0,
        start_time_in_slots: 0,
        end_time_in_slots: 0,
        is_active: false,
        buyout_price: 0,
        seed: 0,
        bump: 0,
    }
}

fn list_ctx() -> List {
    List {
        seller: addr(2),
        admin: addr(1),
        user_account: UserAccount::new(0),
        listing: placeholder_listing(),
        listing_pubkey: addr(50),
        marketplace: marketplace(),
        mint: addr(4),
        collection: addr(5),
        seller_ata: TokenAccount::open_with(1),
        escrow: TokenAccount::open_with(0),
        bumps: ListBumps { user_account: 7, listing: 255 },
    }
}

fn ended_listing(current_bid: u64, highest_bidder: Address) -> ListingV2 {
    ListingV2 {
        mint: addr(4),
        seller: addr(2),
        bid_cost: 1,
        bid_increment: 10,
        current_bid,
        highest_bidder,
        timer_extension_in_slots: 10,
        start_time_in_slots: 100,
        end_time_in_slots: 150,
        is_active: true,
        buyout_price: 1000,
        seed: 0,
        bump: 255,
    }
}

fn delist_ctx(listing: ListingV2, slot: u64) -> Delist {
    Delist {
        maker: addr(2),
        marketplace: marketplace(),
        maker_mint: addr(4),
        maker_ata: TokenAccount::open_with(0),
        listing,
        listing_pubkey: addr(50),
        vault: TokenAccount::open_with(1),
        current_slot: slot,
    }
}

fn end_ctx(listing: ListingV2, claimer: Address, slot: u64) -> EndListing {
    EndListing {
        user: claimer,
        admin: addr(1),
        user_account: UserAccount::new(0),
        seller: addr(2),
        user_ata: TokenAccount::open_with(0),
        mint: addr(4),
        listing,
        listing_pubkey: addr(50),
        escrow: TokenAccount::open_with(1),
        marketplace: marketplace(),
        user_lamports: 1_000,
        treasury_lamports: 0,
        current_slot: slot,
        bumps: EndListingBumps { user_account: 7 },
    }
}

fn code(c: MarketplaceErrorCode) -> Result<(), MarketplaceError> {
    Err(MarketplaceError::Code(c))
}

#[test]
fn listing_creation_escrows_the_asset() {
    let mut ctx = list_ctx();
    let r = list(&mut ctx, 42, 10, 10, 100, 50, 1000, 1, None);
    assert_eq!(r, Ok(()));
    assert_eq!(ctx.listing.mint, addr(4));
    assert_eq!(ctx.listing.seller, addr(2));
    assert_eq!(ctx.listing.bid_cost, 1);
    assert_eq!(ctx.listing.bid_increment, 10);
    assert_eq!(ctx.listing.current_bid, 0);
    assert_eq!(ctx.listing.highest_bidder, Address::default());
    assert_eq!(ctx.listing.start_time_in_slots, 100);
    assert_eq!(ctx.listing.end_time_in_slots, 150);
    assert!(ctx.listing.is_active);
    assert_eq!(ctx.listing.buyout_price, 1000);
    assert_eq!(ctx.listing.seed, 42);
    // Exactly one asset unit moved from the seller into escrow.
    assert_eq!(ctx.seller_ata.amount, 0);
    assert_eq!(ctx.escrow.amount, 1);
    // Tier-2 reward and the created auction counted.
    assert_eq!(ctx.user_account.points, 10);
    assert_eq!(ctx.user_account.total_auctions_created, 1);
}

#[test]
fn listing_needs_the_admin_co_signature() {
    let mut ctx = list_ctx();
    ctx.admin = addr(99);
    let r = list(&mut ctx, 42, 10, 10, 100, 50, 1000, 1, None);
    assert_eq!(r, code(MarketplaceErrorCode::InvalidListingAuthority));
    assert_eq!(ctx.escrow.amount, 0);
    assert_eq!(ctx.user_account.points, 0);
}

#[test]
fn listing_duration_overflow_is_rejected() {
    let mut ctx = list_ctx();
    let r = list(&mut ctx, 42, 10, 10, u64::MAX, 1, 1000, 1, None);
    assert_eq!(r, Err(MarketplaceError::ArithmeticOverflow));
    assert_eq!(ctx.listing, placeholder_listing());
}

#[test]
fn listing_without_the_asset_rolls_back() {
    let mut ctx = list_ctx();
    ctx.seller_ata = TokenAccount::open_with(0);
    let r = list(&mut ctx, 42, 10, 10, 100, 50, 1000, 1, None);
    assert_eq!(r, Err(MarketplaceError::InsufficientFunds));
    // The already-written listing record was rolled back.
    assert_eq!(ctx.listing, placeholder_listing());
    assert_eq!(ctx.escrow.amount, 0);
}

#[test]
fn created_event_names_the_listing() {
    let ctx = list_ctx();
    let event = ctx.emit_listing_created();
    assert_eq!(event.listing_pubkey, addr(50));
    assert_eq!(event.label, "listing_created".to_string());
}

#[test]
fn delist_scenario_unsold_listing_returns_home() {
    // No one ever bid; time passes the deadline.
    let listing = ended_listing(0, Address::default());
    let mut ctx = delist_ctx(listing, 151);
    let r = delist(&mut ctx);
    assert_eq!(r, Ok(()));
    // The asset is back with the seller and the vault is gone.
    assert_eq!(ctx.maker_ata.amount, 1);
    assert!(!ctx.vault.exists);
    assert_eq!(ctx.vault.amount, 0);

    // A second withdrawal finds no vault and fails.
    let r = delist(&mut ctx);
    assert_eq!(r, Err(MarketplaceError::AccountClosed));
    assert_eq!(ctx.maker_ata.amount, 1);
}

#[test]
fn delist_before_the_deadline_is_rejected() {
    let listing = ended_listing(0, Address::default());
    let mut ctx = delist_ctx(listing, 149);
    assert_eq!(delist(&mut ctx), code(MarketplaceErrorCode::AuctionNotEnded));
    assert_eq!(ctx.vault.amount, 1);
}

#[test]
fn delist_with_a_recorded_bidder_is_rejected() {
    let listing = ended_listing(10, addr(10));
    let mut ctx = delist_ctx(listing, 151);
    assert_eq!(delist(&mut ctx), code(MarketplaceErrorCode::CannotDelistWithActiveBidder));
    assert_eq!(ctx.vault.amount, 1);
    assert_eq!(ctx.maker_ata.amount, 0);
}

#[test]
fn delist_with_a_nonzero_bid_is_rejected() {
    // The bidder slot is empty but a bid amount is recorded.
    let listing = ended_listing(10, Address::default());
    let mut ctx = delist_ctx(listing, 151);
    assert_eq!(
        delist(&mut ctx),
        code(MarketplaceErrorCode::CannotDelistWithActiveCurrentBidPrice)
    );
}

#[test]
fn settlement_pays_the_treasury_and_hands_over_the_asset() {
    let winner = addr(10);
    let listing = ended_listing(30, winner);
    let mut ctx = end_ctx(listing, winner, 151);
    let r = end_listing(&mut ctx, 1, None);
    assert_eq!(r, Ok(()));
    // The winner paid the winning bid to the treasury.
    assert_eq!(ctx.user_lamports, 970);
    assert_eq!(ctx.treasury_lamports, 30);
    // The asset moved to the winner and the escrow is gone.
    assert_eq!(ctx.user_ata.amount, 1);
    assert!(!ctx.escrow.exists);
    assert_eq!(ctx.escrow.amount, 0);
    // The listing is settled for good.
    assert!(!ctx.listing.is_active);
    // Tier-3 reward and the won auction counted.
    assert_eq!(ctx.user_account.points, 50);
    assert_eq!(ctx.user_account.total_auctions_won, 1);
}

#[test]
fn seller_reclaims_an_unsold_auction() {
    let listing = ended_listing(0, Address::default());
    let mut ctx = end_ctx(listing, addr(2), 151);
    let r = end_listing(&mut ctx, 1, None);
    assert_eq!(r, Ok(()));
    // No bid, so nothing moves to the treasury.
    assert_eq!(ctx.treasury_lamports, 0);
    assert_eq!(ctx.user_lamports, 1_000);
    assert_eq!(ctx.user_ata.amount, 1);
    assert!(!ctx.escrow.exists);
}

#[test]
fn settlement_before_the_deadline_is_rejected() {
    let winner = addr(10);
    let listing = ended_listing(30, winner);
    let mut ctx = end_ctx(listing, winner, 149);
    assert_eq!(end_listing(&mut ctx, 1, None), code(MarketplaceErrorCode::AuctionNotEnded));
    assert!(ctx.listing.is_active);
}

#[test]
fn settlement_of_a_settled_listing_is_rejected() {
    let winner = addr(10);
    let mut listing = ended_listing(30, winner);
    listing.is_active = false;
    let mut ctx = end_ctx(listing, winner, 151);
    assert_eq!(end_listing(&mut ctx, 1, None), code(MarketplaceErrorCode::AuctionEnded));
}

#[test]
fn only_the_highest_bidder_may_claim() {
    let listing = ended_listing(30, addr(10));
    let mut ctx = end_ctx(listing, addr(11), 151);
    ctx.user_account = UserAccount::new(7);
    assert_eq!(
        end_listing(&mut ctx, 1, None),
        code(MarketplaceErrorCode::ClaimerIsNotHighestBidder)
    );
    assert_eq!(ctx.treasury_lamports, 0);
}

#[test]
fn only_the_seller_may_reclaim_an_unsold_auction() {
    let listing = ended_listing(0, Address::default());
    let mut ctx = end_ctx(listing, addr(11), 151);
    assert_eq!(end_listing(&mut ctx, 1, None), code(MarketplaceErrorCode::ClaimerIsNotSeller));
}

#[test]
fn settlement_needs_the_admin_co_signature() {
    let winner = addr(10);
    let listing = ended_listing(30, winner);
    let mut ctx = end_ctx(listing, winner, 151);
    ctx.admin = addr(99);
    assert_eq!(end_listing(&mut ctx, 1, None), code(MarketplaceErrorCode::InvalidListingAuthority));
}

#[test]
fn settlement_with_broken_seller_binding_is_rejected() {
    let winner = addr(10);
    let listing = ended_listing(30, winner);
    let mut ctx = end_ctx(listing, winner, 151);
    ctx.seller = addr(98);
    assert_eq!(end_listing(&mut ctx, 1, None), Err(MarketplaceError::ConstraintViolation));
}

#[test]
fn settlement_the_claimer_cannot_fund_rolls_back() {
    let winner = addr(10);
    let listing = ended_listing(5_000, winner);
    let mut ctx = end_ctx(listing, winner, 151);
    // The claimer holds 1_000 lamports; the bid is 5_000.
    let r = end_listing(&mut ctx, 1, None);
    assert_eq!(r, Err(MarketplaceError::InsufficientFunds));
    assert_eq!(ctx.user_lamports, 1_000);
    assert_eq!(ctx.treasury_lamports, 0);
    assert!(ctx.escrow.exists);
    assert!(ctx.listing.is_active);
}

#[test]
fn settlement_that_cannot_empty_the_escrow_rolls_back() {
    // The escrow unexpectedly holds two units; withdrawing one leaves it
    // non-empty, the close fails, and the operation rolls back whole.
    let winner = addr(10);
    let listing = ended_listing(30, winner);
    let mut ctx = end_ctx(listing, winner, 151);
    ctx.escrow = TokenAccount::open_with(2);
    let r = end_listing(&mut ctx, 1, None);
    assert_eq!(r, Err(MarketplaceError::AccountNotEmpty));
    assert_eq!(ctx.escrow.amount, 2);
    assert_eq!(ctx.user_ata.amount, 0);
    assert_eq!(ctx.treasury_lamports, 0);
    assert!(ctx.listing.is_active);
}

#[test]
fn settlement_and_delisting_events_name_the_listing() {
    let listing = ended_listing(0, Address::default());
    let ctx = delist_ctx(listing, 151);
    let event = ctx.emit_listing_delisted();
    assert_eq!(event.listing_pubkey, addr(50));
    assert_eq!(event.label, "listing_delisted".to_string());

    let ctx = end_ctx(listing, addr(2), 151);
    let event = ctx.emit_listing_ended();
    assert_eq!(event.listing_pubkey, addr(50));
    assert_eq!(event.label, "listing_ended".to_string());
}
