//! Creating a listing: initializing the auction record and escrowing one
//! unit of the asset under the listing's own authority.

use vstd::prelude::*;

use crate::constants::{LISTING_CREATED_LABEL, REWARD_TIER_2};
use crate::errors::MarketplaceError;
use crate::events::ListingCreated;
use crate::ledger::{Address, TokenAccount};
use crate::state::{ListingV2, Marketplace, UserAccount};
use crate::transfer::{spec_transfer_asset, transfer_asset};

verus! {

/// Derivation bumps of the accounts this operation creates.
#[derive(Clone, Copy, PartialEq, Eq, Structural, Debug)]
pub struct ListBumps {
    pub user_account: u8,
    pub listing: u8,
}

/// Everything creating a listing touches: the seller and the marketplace
/// admin, the seller's loyalty record, the fresh listing record, the asset
/// and the two custody accounts it moves between.
pub struct List {
    /// Identity listing the asset.
    pub seller: Address,
    /// Identity co-signing as marketplace admin.
    pub admin: Address,
    /// The seller's loyalty record.
    pub user_account: UserAccount,
    /// The listing record this operation fills in.
    pub listing: ListingV2,
    /// Address of the listing record, carried into the created-event.
    pub listing_pubkey: Address,
    /// The marketplace the listing joins.
    pub marketplace: Marketplace,
    /// The asset being listed.
    pub mint: Address,
    /// The verified collection the asset belongs to.
    pub collection: Address,
    /// The seller's custody account for the asset.
    pub seller_ata: TokenAccount,
    /// The listing's escrow, owned by the listing's derived authority.
    pub escrow: TokenAccount,
    /// Derivation bumps of the created accounts.
    pub bumps: ListBumps,
}

impl List {
    /// The fields creating a listing never touches.
    pub open spec fn frame(self, other: List) -> bool {
        self.seller == other.seller && self.admin == other.admin && self.listing_pubkey
            == other.listing_pubkey && self.marketplace == other.marketplace && self.mint
            == other.mint && self.collection == other.collection && self.bumps == other.bumps
    }

    /// The listing record that `create_listing` writes: deadline at start
    /// plus duration, no bid and no bidder yet, bid cost fixed at one
    /// credit, active.
    pub open spec fn spec_create_listing(
        self,
        seed: u64,
        bid_increment: u64,
        timer_extension_in_slots: u64,
        start_time_in_slots: u64,
        initial_duration_in_slots: u64,
        buyout_price: u64,
        bumps: ListBumps,
    ) -> Result<ListingV2, MarketplaceError> {
        if start_time_in_slots + initial_duration_in_slots > u64::MAX {
            Err(MarketplaceError::ArithmeticOverflow)
        } else {
            Ok(
                ListingV2 {
                    mint: self.mint,
                    seller: self.seller,
                    bid_cost: 1,
                    bid_increment,
                    current_bid: 0,
                    highest_bidder: Address::spec_empty(),
                    timer_extension_in_slots,
                    start_time_in_slots,
                    end_time_in_slots: (start_time_in_slots + initial_duration_in_slots) as u64,
                    is_active: true,
                    buyout_price,
                    seed,
                    bump: bumps.listing,
                },
            )
        }
    }

    /// Fills the listing record in, exactly as [`List::spec_create_listing`]
    /// says. On failure nothing changes.
    pub fn create_listing(
        &mut self,
        seed: u64,
        bid_increment: u64,
        timer_extension_in_slots: u64,
        start_time_in_slots: u64,
        initial_duration_in_slots: u64,
        buyout_price: u64,
        bumps: &ListBumps,
    ) -> (r: Result<(), MarketplaceError>)
        ensures
            match old(self).spec_create_listing(
                seed,
                bid_increment,
                timer_extension_in_slots,
                start_time_in_slots,
                initial_duration_in_slots,
                buyout_price,
                *bumps,
            ) {
                Ok(created) => r is Ok && *final(self) == (List {
                    listing: created,
                    ..*old(self)
                }),
                Err(e) => r == Err::<(), MarketplaceError>(e) && *final(self) == *old(self),
            },
    {
        let end_time_in_slots = match start_time_in_slots.checked_add(initial_duration_in_slots) {
            Some(v) => v,
            None => {
                return Err(MarketplaceError::ArithmeticOverflow);
            },
        };
        let empty = Address::default();
        self.listing = ListingV2 {
            mint: self.mint,
            seller: self.seller,
            bid_cost: 1,
            bid_increment,
            current_bid: 0,
            highest_bidder: empty,
            timer_extension_in_slots,
            start_time_in_slots,
            end_time_in_slots,
            is_active: true,
            buyout_price,
            seed,
            bump: bumps.listing,
        };
        Ok(())
    }

    /// Moves `amount` units of the asset from the seller's custody into the
    /// listing's escrow through the transfer adapter, exactly as
    /// [`spec_transfer_asset`] says; `route` names the rules-engine program
    /// when the caller supplied its extra authorization accounts.
    pub fn transfer_to_escrow(
        &mut self,
        amount: u64,
        route: Option<Address>,
    ) -> (r: Result<(), MarketplaceError>)
        ensures
            match spec_transfer_asset(old(self).seller_ata, old(self).escrow, amount, route) {
                Ok(moved) => r is Ok && *final(self) == (List {
                    seller_ata: moved.0,
                    escrow: moved.1,
                    ..*old(self)
                }),
                Err(e) => r == Err::<(), MarketplaceError>(e) && *final(self) == *old(self),
            },
    {
        transfer_asset(amount, &mut self.seller_ata, &mut self.escrow, route)
    }

    /// An alternative entry for the escrow move; it performs the same move
    /// through the same adapter as [`List::transfer_to_escrow`].
    pub fn transfer_to_escrow2(
        &mut self,
        amount: u64,
        route: Option<Address>,
    ) -> (r: Result<(), MarketplaceError>)
        ensures
            match spec_transfer_asset(old(self).seller_ata, old(self).escrow, amount, route) {
                Ok(moved) => r is Ok && *final(self) == (List {
                    seller_ata: moved.0,
                    escrow: moved.1,
                    ..*old(self)
                }),
                Err(e) => r == Err::<(), MarketplaceError>(e) && *final(self) == *old(self),
            },
    {
        transfer_asset(amount, &mut self.seller_ata, &mut self.escrow, route)
    }

    /// Builds the created-event for observers; the caller publishes it.
    pub fn emit_listing_created(&self) -> (r: ListingCreated)
        ensures
            r.listing_pubkey == self.listing_pubkey,
            r.label@ == LISTING_CREATED_LABEL@,
    {
        ListingCreated {
            listing_pubkey: self.listing_pubkey,
            label: LISTING_CREATED_LABEL.to_owned(),
        }
    }

    /// What rewarding the seller does: the record is stamped with its bump,
    /// and gains one tier-2 grant and one more created auction — or an
    /// overflow failure that changes nothing.
    pub open spec fn spec_reward_user(self, bump: u8) -> Result<UserAccount, MarketplaceError> {
        if self.user_account.points + REWARD_TIER_2 > u32::MAX {
            Err(MarketplaceError::ArithmeticOverflow)
        } else if self.user_account.total_auctions_created + 1 > u32::MAX {
            Err(MarketplaceError::ArithmeticOverflow)
        } else {
            Ok(
                UserAccount {
                    bump,
                    points: (self.user_account.points + REWARD_TIER_2) as u32,
                    total_auctions_created: (self.user_account.total_auctions_created + 1) as u32,
                    ..self.user_account
                },
            )
        }
    }

    /// Grants the seller a tier-2 point grant and counts the created
    /// auction, exactly as [`List::spec_reward_user`] says. An overflow
    /// fails the whole operation and changes nothing.
    pub fn reward_user(&mut self, bump: u8) -> (r: Result<(), MarketplaceError>)
        ensures
            match old(self).spec_reward_user(bump) {
                Ok(rewarded) => r is Ok && *final(self) == (List {
                    user_account: rewarded,
                    ..*old(self)
                }),
                Err(e) => r == Err::<(), MarketplaceError>(e) && *final(self) == *old(self),
            },
    {
        let new_points = match self.user_account.points.checked_add(REWARD_TIER_2) {
            Some(v) => v,
            None => {
                return Err(MarketplaceError::ArithmeticOverflow);
            },
        };
        let new_created = match self.user_account.total_auctions_created.checked_add(1) {
            Some(v) => v,
            None => {
                return Err(MarketplaceError::ArithmeticOverflow);
            },
        };
        self.user_account.bump = bump;
        self.user_account.points = new_points;
        self.user_account.total_auctions_created = new_created;
        Ok(())
    }
}

} // verus!
