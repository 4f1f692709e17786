//! Shared rule checks of the auction protocol and the system program's
//! native-currency transfer, modelled on plain balances.

use vstd::prelude::*;

use crate::errors::{MarketplaceError, MarketplaceErrorCode};
use crate::ledger::Address;
use crate::state::{ListingV2, MintCostTier, MintTier};

verus! {

/// The optimistic-concurrency guard: the caller's claimed (highest bidder,
/// current bid) pair must match the listing's live state exactly.
pub fn assert_correct_highest_bidder_and_bid(
    listing: &ListingV2,
    current_highest_bidder: &Address,
    current_bid: &u64,
) -> (r: Result<(), MarketplaceError>)
    ensures
        r is Ok <==> listing.claim_matches(*current_highest_bidder, *current_bid),
        r is Err ==> r == Err::<(), MarketplaceError>(
            MarketplaceError::Code(MarketplaceErrorCode::InvalidCurrentHighestBidderAndPrice),
        ),
{
    if listing.highest_bidder != *current_highest_bidder || listing.current_bid != *current_bid {
        return Err(
            MarketplaceError::Code(MarketplaceErrorCode::InvalidCurrentHighestBidderAndPrice),
        );
    }
    Ok(())
}

/// Rejects a bid by whoever already is the highest bidder.
pub fn assert_already_highest_bidder(
    listing: &ListingV2,
    incomming_highest_bidder: &Address,
) -> (r: Result<(), MarketplaceError>)
    ensures
        r is Ok <==> listing.highest_bidder != *incomming_highest_bidder,
        r is Err ==> r == Err::<(), MarketplaceError>(
            MarketplaceError::Code(MarketplaceErrorCode::BidderIsHighestBidder),
        ),
{
    if listing.highest_bidder == *incomming_highest_bidder {
        return Err(MarketplaceError::Code(MarketplaceErrorCode::BidderIsHighestBidder));
    }
    Ok(())
}

/// The auction must accept bids at `current_slot`: active, started, and not
/// past its deadline — checked in that order.
pub fn assert_auction_active(listing: &ListingV2, current_slot: u64) -> (r: Result<
    (),
    MarketplaceError,
>)
    ensures
        r is Ok <==> listing.live_at(current_slot),
        !listing.is_active ==> r == Err::<(), MarketplaceError>(
            MarketplaceError::Code(MarketplaceErrorCode::AuctionNotActive),
        ),
        listing.is_active && current_slot < listing.start_time_in_slots ==> r == Err::<
            (),
            MarketplaceError,
        >(MarketplaceError::Code(MarketplaceErrorCode::AuctionNotStarted)),
        listing.is_active && current_slot >= listing.start_time_in_slots && current_slot
            > listing.end_time_in_slots ==> r == Err::<(), MarketplaceError>(
            MarketplaceError::Code(MarketplaceErrorCode::AuctionEnded),
        ),
{
    if !listing.is_active {
        return Err(MarketplaceError::Code(MarketplaceErrorCode::AuctionNotActive));
    }
    if current_slot < listing.start_time_in_slots {
        return Err(MarketplaceError::Code(MarketplaceErrorCode::AuctionNotStarted));
    }
    if current_slot > listing.end_time_in_slots {
        return Err(MarketplaceError::Code(MarketplaceErrorCode::AuctionEnded));
    }
    Ok(())
}

/// The auction's deadline must have passed at `current_slot`.
pub fn assert_auction_ended(listing: &ListingV2, current_slot: u64) -> (r: Result<
    (),
    MarketplaceError,
>)
    ensures
        r is Ok <==> listing.ended_at(current_slot),
        r is Err ==> r == Err::<(), MarketplaceError>(
            MarketplaceError::Code(MarketplaceErrorCode::AuctionNotEnded),
        ),
{
    if current_slot < listing.end_time_in_slots {
        return Err(MarketplaceError::Code(MarketplaceErrorCode::AuctionNotEnded));
    }
    Ok(())
}

/// The party entitled to settle an ended auction: the highest bidder if one
/// exists, else the seller reclaiming an unsold item.
pub fn assert_allowed_claimer(listing: &ListingV2, bidder: &Address) -> (r: Result<
    (),
    MarketplaceError,
>)
    ensures
        r is Ok <==> (if listing.highest_bidder.is_empty() {
            listing.seller == *bidder
        } else {
            listing.highest_bidder == *bidder
        }),
        listing.highest_bidder.is_empty() && listing.seller != *bidder ==> r == Err::<
            (),
            MarketplaceError,
        >(MarketplaceError::Code(MarketplaceErrorCode::ClaimerIsNotSeller)),
        !listing.highest_bidder.is_empty() && listing.highest_bidder != *bidder ==> r == Err::<
            (),
            MarketplaceError,
        >(MarketplaceError::Code(MarketplaceErrorCode::ClaimerIsNotHighestBidder)),
{
    let empty = Address::default();
    if listing.highest_bidder == empty {
        if listing.seller != *bidder {
            return Err(MarketplaceError::Code(MarketplaceErrorCode::ClaimerIsNotSeller));
        }
    } else if listing.highest_bidder != *bidder {
        return Err(MarketplaceError::Code(MarketplaceErrorCode::ClaimerIsNotHighestBidder));
    }
    Ok(())
}

/// A listing can only be withdrawn while no bid was ever placed: the highest
/// bidder must still be the empty identity and the current bid zero.
pub fn assert_auction_delist_eligible(listing: &ListingV2) -> (r: Result<(), MarketplaceError>)
    ensures
        r is Ok <==> listing.delist_eligible(),
        !listing.highest_bidder.is_empty() ==> r == Err::<(), MarketplaceError>(
            MarketplaceError::Code(MarketplaceErrorCode::CannotDelistWithActiveBidder),
        ),
        listing.highest_bidder.is_empty() && listing.current_bid != 0 ==> r == Err::<
            (),
            MarketplaceError,
        >(MarketplaceError::Code(MarketplaceErrorCode::CannotDelistWithActiveCurrentBidPrice)),
{
    let empty = Address::default();
    if listing.highest_bidder != empty {
        return Err(MarketplaceError::Code(MarketplaceErrorCode::CannotDelistWithActiveBidder));
    }
    if listing.current_bid != 0 {
        return Err(
            MarketplaceError::Code(MarketplaceErrorCode::CannotDelistWithActiveCurrentBidPrice),
        );
    }
    Ok(())
}

/// The requested tier must be one of the three selectors.
pub fn assert_valid_mint_tier_costs(tier: MintCostTier) -> (r: Result<(), MarketplaceError>)
    ensures
        r is Ok,
{
    match tier {
        MintCostTier::Tier1 | MintCostTier::Tier2 | MintCostTier::Tier3 => Ok(()),
    }
}

/// Whether some entry of the tier table configures `tier`.
pub open spec fn tier_configured(tiers: [MintTier; 3], tier: MintCostTier) -> bool {
    tiers[0].tier == tier || tiers[1].tier == tier || tiers[2].tier == tier
}

/// The first entry of the tier table configuring `tier`.
pub open spec fn spec_mint_tier(tiers: [MintTier; 3], tier: MintCostTier) -> MintTier {
    if tiers[0].tier == tier {
        tiers[0]
    } else if tiers[1].tier == tier {
        tiers[1]
    } else {
        tiers[2]
    }
}

/// Looks the requested tier up in the configured table; the tier must be
/// configured, or the caller is not run at all.
pub fn get_mint_tier(tiers: &[MintTier; 3], tier: MintCostTier) -> (r: &MintTier)
    requires
        tier_configured(*tiers, tier),
    ensures
        *r == spec_mint_tier(*tiers, tier),
        r.tier == tier,
{
    if tiers[0].tier == tier {
        &tiers[0]
    } else if tiers[1].tier == tier {
        &tiers[1]
    } else {
        &tiers[2]
    }
}

/// Ten to the `e`th power.
pub open spec fn pow10(e: nat) -> nat
    decreases e,
{
    if e == 0 {
        1
    } else {
        10 * pow10((e - 1) as nat)
    }
}

pub proof fn lemma_pow10_pos(e: nat)
    ensures
        pow10(e) >= 1,
    decreases e,
{
    if e > 0 {
        lemma_pow10_pos((e - 1) as nat);
    }
}

pub proof fn lemma_pow10_monotonic(a: nat, b: nat)
    requires
        a <= b,
    ensures
        pow10(a) <= pow10(b),
    decreases b,
{
    if a < b {
        lemma_pow10_monotonic(a, (b - 1) as nat);
        lemma_pow10_pos((b - 1) as nat);
    }
}

/// Ten to the `e`th power as a `u64`, or `None` where that overflows —
/// the decimal scaling factor of a token's base units.
pub fn checked_pow10(e: u32) -> (r: Option<u64>)
    ensures
        r is Some ==> pow10(e as nat) <= u64::MAX && r == Some(pow10(e as nat) as u64),
        r is None ==> pow10(e as nat) > u64::MAX,
{
    let mut acc: u64 = 1;
    let mut i: u32 = 0;
    while i < e
        invariant
            i <= e,
            acc == pow10(i as nat),
        decreases e - i,
    {
        match acc.checked_mul(10) {
            Some(next) => {
                acc = next;
                i = i + 1;
            },
            None => {
                proof {
                    assert(pow10((i + 1) as nat) == 10 * pow10(i as nat));
                    lemma_pow10_monotonic((i + 1) as nat, e as nat);
                }
                return None;
            },
        }
    }
    Some(acc)
}

/// What the system program's native-currency transfer does: the source
/// balance must hold the amount and the destination must not overflow; then
/// the amount moves. The result gives the new (source, destination) pair.
pub open spec fn spec_transfer_sol(from: u64, to: u64, amount: u64) -> Result<
    (u64, u64),
    MarketplaceError,
> {
    if from < amount {
        Err(MarketplaceError::InsufficientFunds)
    } else if to + amount > u64::MAX {
        Err(MarketplaceError::BalanceOverflow)
    } else {
        Ok(((from - amount) as u64, (to + amount) as u64))
    }
}

/// Moves `amount` native base units between two balances, exactly as
/// [`spec_transfer_sol`] says. On failure nothing moves.
pub fn transfer_sol(from: &mut u64, to: &mut u64, amount: u64) -> (r: Result<(), MarketplaceError>)
    ensures
        match spec_transfer_sol(*old(from), *old(to), amount) {
            Ok(moved) => r is Ok && *final(from) == moved.0 && *final(to) == moved.1,
            Err(e) => r == Err::<(), MarketplaceError>(e) && *final(from) == *old(from)
                && *final(to) == *old(to),
        },
{
    if *from < amount {
        return Err(MarketplaceError::InsufficientFunds);
    }
    match to.checked_add(amount) {
        Some(new_to) => {
            *from = *from - amount;
            *to = new_to;
            Ok(())
        },
        None => Err(MarketplaceError::BalanceOverflow),
    }
}

} // verus!
