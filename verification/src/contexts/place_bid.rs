//! Placing a bid on a live auction: the optimistic-concurrency guard, the
//! bid-credit burn, and the atomic update of bid, bidder and deadline.

use vstd::prelude::*;

use crate::constants::{BID_PLACED_LABEL, REWARD_TIER_1};
use crate::errors::{MarketplaceError, MarketplaceErrorCode};
use crate::events::BidPlaced;
use crate::ledger::{spec_token_burn, token_burn, Address, TokenAccount};
use crate::state::{ListingV2, Marketplace, UserAccount};
use crate::utils::{
    assert_already_highest_bidder, assert_auction_active, assert_correct_highest_bidder_and_bid,
    checked_pow10, pow10,
};

verus! {

/// Everything a bid touches: the bidder's identity and loyalty record, the
/// bid-credit asset and the bidder's credit account, the listing and its
/// marketplace, and the ledger's current slot.
pub struct PlaceBid {
    /// Identity placing the bid.
    pub bidder: Address,
    /// The bidder's loyalty record.
    pub user_account: UserAccount,
    /// The marketplace's bid-credit asset.
    pub sbid_mint: Address,
    /// Decimal precision of the bid-credit asset.
    pub sbid_decimals: u8,
    /// The bidder's bid-credit account, debited one bid cost per bid.
    pub bidder_sbid_ata: TokenAccount,
    /// The listed asset.
    pub mint: Address,
    /// The auction being bid on.
    pub listing: ListingV2,
    /// Address of the listing record, carried into the bid-placed event.
    pub listing_pubkey: Address,
    /// The marketplace the listing belongs to.
    pub marketplace: Marketplace,
    /// The ledger's monotonic time counter at execution.
    pub current_slot: u64,
}

/// The bid-credit base units one bid burns: the listing's bid cost scaled
/// by the credit asset's decimal precision, or nothing where that scaling
/// overflows.
pub open spec fn spec_bid_burn_amount(bid_cost: u64, decimals: u8) -> Option<u64> {
    if pow10(decimals as nat) > u64::MAX {
        None
    } else if bid_cost * pow10(decimals as nat) > u64::MAX {
        None
    } else {
        Some((bid_cost * pow10(decimals as nat)) as u64)
    }
}

impl PlaceBid {
    /// The fields a bid never touches.
    pub open spec fn frame(self, other: PlaceBid) -> bool {
        self.bidder == other.bidder && self.sbid_mint == other.sbid_mint && self.sbid_decimals
            == other.sbid_decimals && self.mint == other.mint && self.listing_pubkey
            == other.listing_pubkey && self.marketplace == other.marketplace && self.current_slot
            == other.current_slot
    }

    /// What placing a bid does, checked in the order the rules are applied:
    /// the auction must be live, the claimed (bidder, bid) pair must match
    /// the live state, the caller must not already be the highest bidder;
    /// then one bid cost of credit burns out of the bidder's account, the
    /// current bid grows by the bid increment, the caller becomes highest
    /// bidder, and the deadline moves out by the timer extension.
    pub open spec fn spec_place_bid(self, claimed_bidder: Address, claimed_bid: u64) -> Result<
        PlaceBid,
        MarketplaceError,
    > {
        if !self.listing.is_active {
            Err(MarketplaceError::Code(MarketplaceErrorCode::AuctionNotActive))
        } else if self.current_slot < self.listing.start_time_in_slots {
            Err(MarketplaceError::Code(MarketplaceErrorCode::AuctionNotStarted))
        } else if self.current_slot > self.listing.end_time_in_slots {
            Err(MarketplaceError::Code(MarketplaceErrorCode::AuctionEnded))
        } else if !self.listing.claim_matches(claimed_bidder, claimed_bid) {
            Err(MarketplaceError::Code(MarketplaceErrorCode::InvalidCurrentHighestBidderAndPrice))
        } else if self.listing.highest_bidder == self.bidder {
            Err(MarketplaceError::Code(MarketplaceErrorCode::BidderIsHighestBidder))
        } else {
            match spec_bid_burn_amount(self.listing.bid_cost, self.sbid_decimals) {
                None => Err(MarketplaceError::ArithmeticOverflow),
                Some(burn) => match spec_token_burn(self.bidder_sbid_ata, burn) {
                    Err(e) => Err(e),
                    Ok(ata) => if self.listing.current_bid + self.listing.bid_increment
                        > u64::MAX {
                        Err(MarketplaceError::ArithmeticOverflow)
                    } else if self.listing.end_time_in_slots + self.listing.timer_extension_in_slots
                        > u64::MAX {
                        Err(MarketplaceError::ArithmeticOverflow)
                    } else {
                        Ok(
                            PlaceBid {
                                bidder_sbid_ata: ata,
                                listing: ListingV2 {
                                    current_bid: (self.listing.current_bid
                                        + self.listing.bid_increment) as u64,
                                    highest_bidder: self.bidder,
                                    end_time_in_slots: (self.listing.end_time_in_slots
                                        + self.listing.timer_extension_in_slots) as u64,
                                    ..self.listing
                                },
                                ..self
                            },
                        )
                    },
                },
            }
        }
    }

    /// What rewarding the bidder does: one tier-1 point and one more bid
    /// counted, or an overflow failure that changes nothing.
    pub open spec fn spec_reward_user(self) -> Result<UserAccount, MarketplaceError> {
        if self.user_account.points + REWARD_TIER_1 > u32::MAX {
            Err(MarketplaceError::ArithmeticOverflow)
        } else if self.user_account.total_bids_placed + 1 > u32::MAX {
            Err(MarketplaceError::ArithmeticOverflow)
        } else {
            Ok(
                UserAccount {
                    points: (self.user_account.points + REWARD_TIER_1) as u32,
                    total_bids_placed: (self.user_account.total_bids_placed + 1) as u32,
                    ..self.user_account
                },
            )
        }
    }

    /// Places the bid, exactly as [`PlaceBid::spec_place_bid`] says. On
    /// failure the listing and the loyalty record are untouched; the
    /// enclosing operation discards every in-memory change.
    pub fn place_bid(
        &mut self,
        current_highest_bidder: &Address,
        current_bid: &u64,
    ) -> (r: Result<(), MarketplaceError>)
        ensures
            match old(self).spec_place_bid(*current_highest_bidder, *current_bid) {
                Ok(next) => r is Ok && *final(self) == next,
                Err(e) => r == Err::<(), MarketplaceError>(e),
            },
            old(self).frame(*final(self)),
            r is Err ==> final(self).listing == old(self).listing && final(self).user_account
                == old(self).user_account,
    {
        assert_auction_active(&self.listing, self.current_slot)?;
        assert_correct_highest_bidder_and_bid(&self.listing, current_highest_bidder, current_bid)?;
        assert_already_highest_bidder(&self.listing, &self.bidder)?;

        // Burn one bid cost of bid-credit from the bidder.
        self.burn_token()?;

        let new_bid = match self.listing.current_bid.checked_add(self.listing.bid_increment) {
            Some(v) => v,
            None => {
                return Err(MarketplaceError::ArithmeticOverflow);
            },
        };
        let new_end = match self.listing.end_time_in_slots.checked_add(
            self.listing.timer_extension_in_slots,
        ) {
            Some(v) => v,
            None => {
                return Err(MarketplaceError::ArithmeticOverflow);
            },
        };
        self.listing.current_bid = new_bid;
        self.listing.highest_bidder = self.bidder;
        self.listing.end_time_in_slots = new_end;

        Ok(())
    }

    /// Burns one bid cost of bid-credit, scaled by the credit asset's
    /// decimal precision, out of the bidder's credit account.
    fn burn_token(&mut self) -> (r: Result<(), MarketplaceError>)
        ensures
            match spec_bid_burn_amount(old(self).listing.bid_cost, old(self).sbid_decimals) {
                None => r == Err::<(), MarketplaceError>(MarketplaceError::ArithmeticOverflow)
                    && *final(self) == *old(self),
                Some(burn) => match spec_token_burn(old(self).bidder_sbid_ata, burn) {
                    Err(e) => r == Err::<(), MarketplaceError>(e) && *final(self) == *old(self),
                    Ok(ata) => r is Ok && *final(self) == (PlaceBid {
                        bidder_sbid_ata: ata,
                        ..*old(self)
                    }),
                },
            },
    {
        let scale = match checked_pow10(self.sbid_decimals as u32) {
            Some(v) => v,
            None => {
                return Err(MarketplaceError::ArithmeticOverflow);
            },
        };
        let amount = match self.listing.bid_cost.checked_mul(scale) {
            Some(v) => v,
            None => {
                return Err(MarketplaceError::ArithmeticOverflow);
            },
        };
        token_burn(&mut self.bidder_sbid_ata, amount)
    }

    /// Builds the bid-placed event for observers, carrying the bid and
    /// deadline now on record; the caller publishes it.
    pub fn emit_bid_placed(&self) -> (r: BidPlaced)
        ensures
            r.bidder == self.bidder,
            r.listing == self.listing_pubkey,
            r.current_bid == self.listing.current_bid,
            r.end_time_in_slots == self.listing.end_time_in_slots,
            r.label@ == BID_PLACED_LABEL@,
    {
        BidPlaced {
            bidder: self.bidder,
            listing: self.listing_pubkey,
            current_bid: self.listing.current_bid,
            end_time_in_slots: self.listing.end_time_in_slots,
            label: BID_PLACED_LABEL.to_owned(),
        }
    }

    /// Grants the bidder one tier-1 point and counts the bid, exactly as
    /// [`PlaceBid::spec_reward_user`] says. An overflow fails the whole
    /// operation and changes nothing.
    pub fn reward_user(&mut self) -> (r: Result<(), MarketplaceError>)
        ensures
            match old(self).spec_reward_user() {
                Ok(rewarded) => r is Ok && *final(self) == (PlaceBid {
                    user_account: rewarded,
                    ..*old(self)
                }),
                Err(e) => r == Err::<(), MarketplaceError>(e) && *final(self) == *old(self),
            },
    {
        let new_points = match self.user_account.points.checked_add(REWARD_TIER_1) {
            Some(v) => v,
            None => {
                return Err(MarketplaceError::ArithmeticOverflow);
            },
        };
        let new_bids = match self.user_account.total_bids_placed.checked_add(1) {
            Some(v) => v,
            None => {
                return Err(MarketplaceError::ArithmeticOverflow);
            },
        };
        self.user_account.points = new_points;
        self.user_account.total_bids_placed = new_bids;
        Ok(())
    }
}

} // verus!
