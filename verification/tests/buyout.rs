use nft_marketplace::contexts::purchase::Purchase;
use nft_marketplace::errors::MarketplaceError;
use nft_marketplace::ledger::{Address, TokenAccount};
use nft_marketplace::purchase;
use nft_marketplace::state::{ListingV2, Marketplace, MintCostTier, MintTier};

fn addr(n: u64) -> Address {
    Address::new(n, 0, 0, 0)
}

fn tiers() -> [MintTier; 3] {
    [
        MintTier { tier: MintCostTier::Tier1, amount: 75, cost: 100, bonus: 10 },
        MintTier { tier: MintCostTier::Tier2, amount: 200, cost: 200, bonus: 25 },
        MintTier { tier: MintCostTier::Tier3, amount: 500, cost: 400, bonus: 100 },
    ]
}

fn marketplace(fee: u16) -> Marketplace {
    Marketplace {
        admin: addr(1),
        sbid_mint: addr(3),
        treasury: addr(6),
        fee,
        name: "auction_house".to_string(),
        mint_tiers: tiers(),
        bump: 254,
        treasury_bump: 253,
    }
}

fn listing(buyout_price: u64) -> ListingV2 {
    ListingV2 {
        mint: addr(4),
        seller: addr(2),
        bid_cost: 1,
        bid_increment: 10,
        current_bid: 0,
        highest_bidder: Address::default(),
        timer_extension_in_slots: 10,
        start_time_in_slots: 100,
        end_time_in_slots: 150,
        is_active: true,
        buyout_price,
        seed: 0,
        bump: 255,
    }
}

fn buy_ctx(buyout_price: u64, fee: u16) -> Purchase {
    Purchase {
        buyer: addr(20),
        buyer_lamports: 1_000_000,
        seller: addr(2),
        seller_lamports: 0,
        mint: addr(4),
        taker_ata: TokenAccount::open_with(0),
        listing: listing(buyout_price),
        marketplace: marketplace(fee),
        vault: TokenAccount::open_with(1),
        treasury_lamports: 0,
    }
}

#[test]
fn buyout_splits_the_price_between_treasury_and_seller() {
    // 2.5% of 1000 is 25.
    let mut ctx = buy_ctx(1000, 250);
    let r = purchase(&mut ctx);
    assert_eq!(r, Ok(()));
    assert_eq!(ctx.treasury_lamports, 25);
    assert_eq!(ctx.seller_lamports, 975);
    assert_eq!(ctx.buyer_lamports, 1_000_000 - 1000);
    // The asset reached the buyer and the vault is gone.
    assert_eq!(ctx.taker_ata.amount, 1);
    assert!(!ctx.vault.exists);
    assert_eq!(ctx.vault.amount, 0);
}

#[test]
fn fee_rounds_down_and_the_split_is_exact() {
    // floor(999 * 333 / 10000) = 33; the seller gets the remainder.
    let mut ctx = buy_ctx(999, 333);
    assert_eq!(purchase(&mut ctx), Ok(()));
    assert_eq!(ctx.treasury_lamports, 33);
    assert_eq!(ctx.seller_lamports, 966);
    assert_eq!(ctx.treasury_lamports + ctx.seller_lamports, 999);
}

#[test]
fn full_fee_sends_everything_to_the_treasury() {
    let mut ctx = buy_ctx(1000, 10000);
    assert_eq!(purchase(&mut ctx), Ok(()));
    assert_eq!(ctx.treasury_lamports, 1000);
    assert_eq!(ctx.seller_lamports, 0);
}

#[test]
fn zero_fee_sends_everything_to_the_seller() {
    let mut ctx = buy_ctx(1000, 0);
    assert_eq!(purchase(&mut ctx), Ok(()));
    assert_eq!(ctx.treasury_lamports, 0);
    assert_eq!(ctx.seller_lamports, 1000);
}

#[test]
fn fee_computation_overflow_is_rejected() {
    let mut ctx = buy_ctx(u64::MAX, 2);
    assert_eq!(purchase(&mut ctx), Err(MarketplaceError::ArithmeticOverflow));
    assert_eq!(ctx.buyer_lamports, 1_000_000);
    assert_eq!(ctx.treasury_lamports, 0);
}

#[test]
fn buyout_the_buyer_cannot_fund_rolls_back() {
    let mut ctx = buy_ctx(1000, 250);
    ctx.buyer_lamports = 500;
    assert_eq!(purchase(&mut ctx), Err(MarketplaceError::InsufficientFunds));
    assert_eq!(ctx.buyer_lamports, 500);
    assert_eq!(ctx.treasury_lamports, 0);
    assert_eq!(ctx.seller_lamports, 0);
    assert!(ctx.vault.exists);
    assert_eq!(ctx.vault.amount, 1);
}

#[test]
fn buyout_with_an_empty_vault_rolls_back_the_payments() {
    let mut ctx = buy_ctx(1000, 250);
    ctx.vault = TokenAccount::open_with(0);
    assert_eq!(purchase(&mut ctx), Err(MarketplaceError::InsufficientFunds));
    // Both currency moves were rolled back with the failed withdrawal.
    assert_eq!(ctx.buyer_lamports, 1_000_000);
    assert_eq!(ctx.treasury_lamports, 0);
    assert_eq!(ctx.seller_lamports, 0);
}

#[test]
fn buyout_with_broken_seller_binding_is_rejected() {
    let mut ctx = buy_ctx(1000, 250);
    ctx.seller = addr(98);
    assert_eq!(purchase(&mut ctx), Err(MarketplaceError::ConstraintViolation));
}

#[test]
fn buyout_with_broken_asset_binding_is_rejected() {
    let mut ctx = buy_ctx(1000, 250);
    ctx.mint = addr(98);
    assert_eq!(purchase(&mut ctx), Err(MarketplaceError::ConstraintViolation));
}

#[test]
fn buyout_ignores_the_active_flag() {
    // The buyout path deliberately does not consult the active flag.
    let mut ctx = buy_ctx(1000, 250);
    ctx.listing.is_active = false;
    assert_eq!(purchase(&mut ctx), Ok(()));
    assert_eq!(ctx.seller_lamports, 975);
}
