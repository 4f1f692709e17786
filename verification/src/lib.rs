//! On-ledger logic of an auction-based NFT marketplace: listing creation,
//! competitive bidding paid in a fungible bid-credit token, auction
//! settlement, delisting, direct buyout, a loyalty-point ledger, and escrow
//! custody of the traded asset. Every operation is a verified transition on
//! plain values; the surrounding process applies the resulting moves to the
//! real ledger.
//!
//! The functions in this root module are the externally callable
//! operations. Each first checks the account bindings the operation
//! declares, then runs its handler steps, and on any failure puts every
//! in-memory change back — the same all-or-nothing outcome the host ledger
//! guarantees by aborting the enclosing transaction.

use vstd::prelude::*;

pub mod constants;
pub mod contexts;
pub mod errors;
pub mod events;
pub mod laws;
pub mod ledger;
pub mod state;
pub mod transfer;
pub mod utils;

use crate::contexts::delist::Delist;
use crate::contexts::end_listing::EndListing;
use crate::contexts::initialize::Initialize;
use crate::contexts::initialize_user::InitializeUser;
use crate::contexts::list::{List, ListBumps};
use crate::contexts::mint_bid_token::MintBidToken;
use crate::contexts::place_bid::PlaceBid;
use crate::contexts::purchase::Purchase;
use crate::contexts::update_marketplace::UpdateMarketplace;
use crate::errors::{MarketplaceError, MarketplaceErrorCode};
use crate::ledger::Address;
use crate::state::{Marketplace, MintCostTier, MintTier};
use crate::transfer::spec_transfer_asset;
use crate::utils::tier_configured;

verus! {

/// What the whole create-marketplace operation does: validate the name and
/// fill the registry in.
pub open spec fn spec_initialize_op(
    ctx: Initialize,
    name: String,
    fee: u16,
    mint_costs: [MintTier; 3],
) -> Result<Initialize, MarketplaceError> {
    match ctx.spec_initialize_marketplace(name, fee, mint_costs, ctx.bumps) {
        Err(e) => Err(e),
        Ok(created) => Ok(Initialize { marketplace: created, ..ctx }),
    }
}

/// Creates a marketplace, exactly as [`spec_initialize_op`] says. The
/// bid-credit asset itself is created on the ledger by the caller
/// afterwards. On failure nothing changes.
pub fn initialize(
    ctx: &mut Initialize,
    name: String,
    fee: u16,
    mint_costs: [MintTier; 3],
) -> (r: Result<(), MarketplaceError>)
    ensures
        match spec_initialize_op(*old(ctx), name, fee, mint_costs) {
            Ok(next) => r is Ok && *final(ctx) == next,
            Err(e) => r == Err::<(), MarketplaceError>(e) && *final(ctx) == *old(ctx),
        },
{
    let bumps = ctx.bumps;
    ctx.initialize_marketplace(name, fee, mint_costs, &bumps)
}

/// What the whole create-listing operation does: only the marketplace
/// admin may co-sign a listing; then the listing record is filled in, one
/// asset unit moves into escrow, and the seller's loyalty record gains its
/// tier-2 grant.
pub open spec fn spec_list_op(
    ctx: List,
    seed: u64,
    bid_increment: u64,
    timer_extension_in_slots: u64,
    start_time_in_slots: u64,
    initial_duration_in_slots: u64,
    buyout_price: u64,
    amount: u64,
    route: Option<Address>,
) -> Result<List, MarketplaceError> {
    if ctx.admin != ctx.marketplace.admin {
        Err(MarketplaceError::Code(MarketplaceErrorCode::InvalidListingAuthority))
    } else {
        match ctx.spec_create_listing(
            seed,
            bid_increment,
            timer_extension_in_slots,
            start_time_in_slots,
            initial_duration_in_slots,
            buyout_price,
            ctx.bumps,
        ) {
            Err(e) => Err(e),
            Ok(created) => match spec_transfer_asset(ctx.seller_ata, ctx.escrow, amount, route) {
                Err(e) => Err(e),
                Ok(moved) => match ctx.spec_reward_user(ctx.bumps.user_account) {
                    Err(e) => Err(e),
                    Ok(rewarded) => Ok(
                        List {
                            listing: created,
                            seller_ata: moved.0,
                            escrow: moved.1,
                            user_account: rewarded,
                            ..ctx
                        },
                    ),
                },
            },
        }
    }
}

/// Creates a listing and escrows the asset, exactly as [`spec_list_op`]
/// says. On failure nothing changes.
pub fn list(
    ctx: &mut List,
    seed: u64,
    bid_increment: u64,
    timer_extension_in_slots: u64,
    start_time_in_slots: u64,
    initial_duration_in_slots: u64,
    buyout_price: u64,
    amount: u64,
    route: Option<Address>,
) -> (r: Result<(), MarketplaceError>)
    ensures
        match spec_list_op(
            *old(ctx),
            seed,
            bid_increment,
            timer_extension_in_slots,
            start_time_in_slots,
            initial_duration_in_slots,
            buyout_price,
            amount,
            route,
        ) {
            Ok(next) => r is Ok && *final(ctx) == next,
            Err(e) => r == Err::<(), MarketplaceError>(e) && *final(ctx) == *old(ctx),
        },
{
    if ctx.admin != ctx.marketplace.admin {
        return Err(MarketplaceError::Code(MarketplaceErrorCode::InvalidListingAuthority));
    }

    let saved_listing = ctx.listing;
    let saved_user = ctx.user_account;
    let saved_seller_ata = ctx.seller_ata;
    let saved_escrow = ctx.escrow;
    let bumps = ctx.bumps;

    let outcome = list_steps(
        ctx,
        seed,
        bid_increment,
        timer_extension_in_slots,
        start_time_in_slots,
        initial_duration_in_slots,
        buyout_price,
        amount,
        route,
        bumps,
    );
    match outcome {
        Ok(()) => Ok(()),
        Err(e) => {
            ctx.listing = saved_listing;
            ctx.user_account = saved_user;
            ctx.seller_ata = saved_seller_ata;
            ctx.escrow = saved_escrow;
            Err(e)
        },
    }
}

/// The handler steps of [`list`], in the order the whole operation runs
/// them; the caller discards every in-memory change on failure.
fn list_steps(
    ctx: &mut List,
    seed: u64,
    bid_increment: u64,
    timer_extension_in_slots: u64,
    start_time_in_slots: u64,
    initial_duration_in_slots: u64,
    buyout_price: u64,
    amount: u64,
    route: Option<Address>,
    bumps: ListBumps,
) -> (r: Result<(), MarketplaceError>)
    requires
        old(ctx).bumps == bumps,
        old(ctx).admin == old(ctx).marketplace.admin,
    ensures
        old(ctx).frame(*final(ctx)),
        match spec_list_op(
            *old(ctx),
            seed,
            bid_increment,
            timer_extension_in_slots,
            start_time_in_slots,
            initial_duration_in_slots,
            buyout_price,
            amount,
            route,
        ) {
            Ok(next) => r is Ok && *final(ctx) == next,
            Err(e) => r == Err::<(), MarketplaceError>(e),
        },
{
    ctx.create_listing(
        seed,
        bid_increment,
        timer_extension_in_slots,
        start_time_in_slots,
        initial_duration_in_slots,
        buyout_price,
        &bumps,
    )?;
    ctx.transfer_to_escrow(amount, route)?;
    ctx.reward_user(bumps.user_account)?;
    Ok(())
}

/// What the whole place-bid operation does: the bid account bindings must
/// hold; then the bid runs as [`PlaceBid::spec_place_bid`] says and the
/// bidder's loyalty record gains its tier-1 grant.
pub open spec fn spec_place_bid_op(ctx: PlaceBid, highest_bidder: Address, current_bid: u64) -> Result<
    PlaceBid,
    MarketplaceError,
> {
    if ctx.mint != ctx.listing.mint || ctx.marketplace.sbid_mint != ctx.sbid_mint {
        Err(MarketplaceError::ConstraintViolation)
    } else {
        match ctx.spec_place_bid(highest_bidder, current_bid) {
            Err(e) => Err(e),
            Ok(mid) => match mid.spec_reward_user() {
                Err(e) => Err(e),
                Ok(rewarded) => Ok(PlaceBid { user_account: rewarded, ..mid }),
            },
        }
    }
}

/// Places a bid, exactly as [`spec_place_bid_op`] says: the caller claims
/// the (highest bidder, current bid) pair it observed, and a mismatch with
/// live state fails the bid with the concurrency error and changes
/// nothing. On any failure nothing changes.
pub fn place_bid(ctx: &mut PlaceBid, highest_bidder: Address, current_bid: u64) -> (r: Result<
    (),
    MarketplaceError,
>)
    ensures
        match spec_place_bid_op(*old(ctx), highest_bidder, current_bid) {
            Ok(next) => r is Ok && *final(ctx) == next,
            Err(e) => r == Err::<(), MarketplaceError>(e) && *final(ctx) == *old(ctx),
        },
{
    if ctx.mint != ctx.listing.mint || ctx.marketplace.sbid_mint != ctx.sbid_mint {
        return Err(MarketplaceError::ConstraintViolation);
    }

    let saved_listing = ctx.listing;
    let saved_user = ctx.user_account;
    let saved_ata = ctx.bidder_sbid_ata;

    let outcome = place_bid_steps(ctx, highest_bidder, current_bid);
    match outcome {
        Ok(()) => Ok(()),
        Err(e) => {
            ctx.listing = saved_listing;
            ctx.user_account = saved_user;
            ctx.bidder_sbid_ata = saved_ata;
            Err(e)
        },
    }
}

/// The handler steps of [`place_bid`], in the order the whole operation
/// runs them; the caller discards every in-memory change on failure.
fn place_bid_steps(ctx: &mut PlaceBid, highest_bidder: Address, current_bid: u64) -> (r: Result<
    (),
    MarketplaceError,
>)
    requires
        old(ctx).mint == old(ctx).listing.mint,
        old(ctx).marketplace.sbid_mint == old(ctx).sbid_mint,
    ensures
        old(ctx).frame(*final(ctx)),
        match spec_place_bid_op(*old(ctx), highest_bidder, current_bid) {
            Ok(next) => r is Ok && *final(ctx) == next,
            Err(e) => r == Err::<(), MarketplaceError>(e),
        },
{
    ctx.place_bid(&highest_bidder, &current_bid)?;
    ctx.reward_user()?;
    Ok(())
}

/// What the whole settle operation does: the settlement account bindings
/// must hold, with the admin co-signing; then settlement runs as
/// [`EndListing::spec_end_listing`] says and the claimer's loyalty record
/// gains its tier-3 grant.
pub open spec fn spec_end_listing_op(ctx: EndListing, amount: u64, route: Option<Address>) -> Result<
    EndListing,
    MarketplaceError,
> {
    if ctx.admin != ctx.marketplace.admin {
        Err(MarketplaceError::Code(MarketplaceErrorCode::InvalidListingAuthority))
    } else if ctx.seller != ctx.listing.seller || ctx.mint != ctx.listing.mint {
        Err(MarketplaceError::ConstraintViolation)
    } else {
        match ctx.spec_end_listing(amount, route) {
            Err(e) => Err(e),
            Ok(mid) => match mid.spec_reward_user(ctx.bumps.user_account) {
                Err(e) => Err(e),
                Ok(rewarded) => Ok(EndListing { user_account: rewarded, ..mid }),
            },
        }
    }
}

/// Settles an ended auction, exactly as [`spec_end_listing_op`] says: the
/// claimer pays the winning bid to the treasury and takes the asset, and
/// the emptied escrow is closed. On any failure nothing changes.
pub fn end_listing(ctx: &mut EndListing, amount: u64, route: Option<Address>) -> (r: Result<
    (),
    MarketplaceError,
>)
    ensures
        match spec_end_listing_op(*old(ctx), amount, route) {
            Ok(next) => r is Ok && *final(ctx) == next,
            Err(e) => r == Err::<(), MarketplaceError>(e) && *final(ctx) == *old(ctx),
        },
        r is Ok ==> !final(ctx).escrow.exists && final(ctx).escrow.amount == 0,
{
    if ctx.admin != ctx.marketplace.admin {
        return Err(MarketplaceError::Code(MarketplaceErrorCode::InvalidListingAuthority));
    }
    if ctx.seller != ctx.listing.seller || ctx.mint != ctx.listing.mint {
        return Err(MarketplaceError::ConstraintViolation);
    }

    let saved_listing = ctx.listing;
    let saved_user = ctx.user_account;
    let saved_user_ata = ctx.user_ata;
    let saved_escrow = ctx.escrow;
    let saved_user_lamports = ctx.user_lamports;
    let saved_treasury_lamports = ctx.treasury_lamports;
    let bump = ctx.bumps.user_account;

    let outcome = end_listing_steps(ctx, amount, route, bump);
    match outcome {
        Ok(()) => Ok(()),
        Err(e) => {
            ctx.listing = saved_listing;
            ctx.user_account = saved_user;
            ctx.user_ata = saved_user_ata;
            ctx.escrow = saved_escrow;
            ctx.user_lamports = saved_user_lamports;
            ctx.treasury_lamports = saved_treasury_lamports;
            Err(e)
        },
    }
}

/// The handler steps of [`end_listing`], in the order the whole
/// operation runs them; the caller discards every in-memory change on
/// failure.
fn end_listing_steps(
    ctx: &mut EndListing,
    amount: u64,
    route: Option<Address>,
    bump: u8,
) -> (r: Result<(), MarketplaceError>)
    requires
        old(ctx).admin == old(ctx).marketplace.admin,
        old(ctx).seller == old(ctx).listing.seller,
        old(ctx).mint == old(ctx).listing.mint,
        old(ctx).bumps.user_account == bump,
    ensures
        old(ctx).frame(*final(ctx)),
        match spec_end_listing_op(*old(ctx), amount, route) {
            Ok(next) => r is Ok && *final(ctx) == next,
            Err(e) => r == Err::<(), MarketplaceError>(e),
        },
{
    ctx.end_listing(amount, route)?;
    ctx.reward_user(bump)?;
    Ok(())
}

/// Withdraws a never-bid-upon listing after its deadline, exactly as
/// [`Delist::spec_withdraw_and_close`] says: the asset unit returns to the
/// seller and the emptied vault is closed; the runtime then also closes
/// the listing record. On any failure nothing changes.
pub fn delist(ctx: &mut Delist) -> (r: Result<(), MarketplaceError>)
    ensures
        match old(ctx).spec_withdraw_and_close() {
            Ok(next) => r is Ok && *final(ctx) == next,
            Err(e) => r == Err::<(), MarketplaceError>(e) && *final(ctx) == *old(ctx),
        },
        r is Ok ==> !final(ctx).vault.exists && final(ctx).vault.amount == 0,
{
    let saved_maker_ata = ctx.maker_ata;
    let saved_vault = ctx.vault;

    let outcome = ctx.withdraw_and_close();
    match outcome {
        Ok(()) => Ok(()),
        Err(e) => {
            ctx.maker_ata = saved_maker_ata;
            ctx.vault = saved_vault;
            Err(e)
        },
    }
}

/// What the whole buyout operation does: the listing's account bindings
/// must hold; then the buyout runs as [`Purchase::spec_purchase`] says.
pub open spec fn spec_purchase_op(ctx: Purchase) -> Result<Purchase, MarketplaceError> {
    if ctx.seller != ctx.listing.seller || ctx.mint != ctx.listing.mint {
        Err(MarketplaceError::ConstraintViolation)
    } else {
        ctx.spec_purchase()
    }
}

/// Buys a listed asset outright, exactly as [`spec_purchase_op`] says: the
/// buyout price splits between treasury fee and seller proceeds, the buyer
/// takes the asset, and the emptied vault is closed. On any failure
/// nothing changes.
pub fn purchase(ctx: &mut Purchase) -> (r: Result<(), MarketplaceError>)
    ensures
        match spec_purchase_op(*old(ctx)) {
            Ok(next) => r is Ok && *final(ctx) == next,
            Err(e) => r == Err::<(), MarketplaceError>(e) && *final(ctx) == *old(ctx),
        },
        r is Ok ==> !final(ctx).vault.exists && final(ctx).vault.amount == 0,
        r is Ok ==> final(ctx).treasury_lamports - old(ctx).treasury_lamports
            + final(ctx).seller_lamports - old(ctx).seller_lamports
            == old(ctx).listing.buyout_price,
{
    if ctx.seller != ctx.listing.seller || ctx.mint != ctx.listing.mint {
        return Err(MarketplaceError::ConstraintViolation);
    }

    let saved_buyer_lamports = ctx.buyer_lamports;
    let saved_seller_lamports = ctx.seller_lamports;
    let saved_treasury_lamports = ctx.treasury_lamports;
    let saved_taker_ata = ctx.taker_ata;
    let saved_vault = ctx.vault;

    let outcome = ctx.purchase();
    match outcome {
        Ok(()) => Ok(()),
        Err(e) => {
            ctx.buyer_lamports = saved_buyer_lamports;
            ctx.seller_lamports = saved_seller_lamports;
            ctx.treasury_lamports = saved_treasury_lamports;
            ctx.taker_ata = saved_taker_ata;
            ctx.vault = saved_vault;
            Err(e)
        },
    }
}

/// What the whole buy-credits operation does: the admin and credit-asset
/// bindings must hold; then the purchase runs as
/// [`MintBidToken::spec_mint_token`] says and the buyer's loyalty record
/// gains its tier-1 grant.
pub open spec fn spec_mint_bid_token_op(ctx: MintBidToken, tier: MintCostTier) -> Result<
    MintBidToken,
    MarketplaceError,
> {
    if ctx.admin != ctx.marketplace.admin || ctx.marketplace.sbid_mint != ctx.sbid_mint {
        Err(MarketplaceError::ConstraintViolation)
    } else {
        match ctx.spec_mint_token(tier) {
            Err(e) => Err(e),
            Ok(mid) => match mid.spec_reward_user(ctx.bumps.user_account) {
                Err(e) => Err(e),
                Ok(rewarded) => Ok(MintBidToken { user_account: rewarded, ..mid }),
            },
        }
    }
}

/// Buys bid credits at the requested tier, exactly as
/// [`spec_mint_bid_token_op`] says. The tier must be configured in the
/// marketplace's table: a missing tier would abort the lookup, so the
/// caller checks first. On any failure nothing changes.
pub fn mint_bid_token(ctx: &mut MintBidToken, tier: MintCostTier) -> (r: Result<
    (),
    MarketplaceError,
>)
    requires
        tier_configured(old(ctx).marketplace.mint_tiers, tier),
    ensures
        match spec_mint_bid_token_op(*old(ctx), tier) {
            Ok(next) => r is Ok && *final(ctx) == next,
            Err(e) => r == Err::<(), MarketplaceError>(e) && *final(ctx) == *old(ctx),
        },
{
    if ctx.admin != ctx.marketplace.admin || ctx.marketplace.sbid_mint != ctx.sbid_mint {
        return Err(MarketplaceError::ConstraintViolation);
    }

    let saved_user_lamports = ctx.user_lamports;
    let saved_treasury_lamports = ctx.treasury_lamports;
    let saved_user_ata = ctx.user_sbid_ata;
    let saved_user = ctx.user_account;
    let bump = ctx.bumps.user_account;

    let outcome = mint_bid_token_steps(ctx, tier, bump);
    match outcome {
        Ok(()) => Ok(()),
        Err(e) => {
            ctx.user_lamports = saved_user_lamports;
            ctx.treasury_lamports = saved_treasury_lamports;
            ctx.user_sbid_ata = saved_user_ata;
            ctx.user_account = saved_user;
            Err(e)
        },
    }
}

/// The handler steps of [`mint_bid_token`], in the order the whole
/// operation runs them; the caller discards every in-memory change on
/// failure.
fn mint_bid_token_steps(ctx: &mut MintBidToken, tier: MintCostTier, bump: u8) -> (r: Result<
    (),
    MarketplaceError,
>)
    requires
        tier_configured(old(ctx).marketplace.mint_tiers, tier),
        old(ctx).admin == old(ctx).marketplace.admin,
        old(ctx).marketplace.sbid_mint == old(ctx).sbid_mint,
        old(ctx).bumps.user_account == bump,
    ensures
        old(ctx).frame(*final(ctx)),
        match spec_mint_bid_token_op(*old(ctx), tier) {
            Ok(next) => r is Ok && *final(ctx) == next,
            Err(e) => r == Err::<(), MarketplaceError>(e),
        },
{
    ctx.mint_token(tier)?;
    ctx.reward_user(bump)?;
    Ok(())
}

/// Creates a participant's loyalty record with every counter at zero.
pub fn initialize_user(ctx: &mut InitializeUser) -> (r: Result<(), MarketplaceError>)
    ensures
        r is Ok,
        *final(ctx) == (InitializeUser {
            user_account: crate::state::UserAccount {
                total_bids_placed: 0,
                total_auctions_participated: 0,
                total_auctions_won: 0,
                total_auctions_created: 0,
                points: 0,
                bump: old(ctx).bumps.user_account,
            },
            ..*old(ctx)
        }),
{
    let bumps = ctx.bumps;
    ctx.initialize_user(&bumps)
}

/// Replaces the marketplace's mint-cost tier table; only the registry's
/// admin may. On failure nothing changes.
pub fn update_mint_tiers(ctx: &mut UpdateMarketplace, tiers: [MintTier; 3]) -> (r: Result<
    (),
    MarketplaceError,
>)
    ensures
        old(ctx).admin != old(ctx).marketplace.admin ==> r == Err::<(), MarketplaceError>(
            MarketplaceError::ConstraintViolation,
        ) && *final(ctx) == *old(ctx),
        old(ctx).admin == old(ctx).marketplace.admin ==> r is Ok && *final(ctx)
            == (UpdateMarketplace {
            marketplace: Marketplace { mint_tiers: tiers, ..old(ctx).marketplace },
            ..*old(ctx)
        }),
{
    if ctx.admin != ctx.marketplace.admin {
        return Err(MarketplaceError::ConstraintViolation);
    }
    ctx.update_mint_tiers(tiers)
}

} // verus!
