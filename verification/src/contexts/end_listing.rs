//! Settling an ended auction: the legitimate claimer pays the winning bid
//! to the treasury, takes the escrowed asset, and the escrow is closed.

use vstd::prelude::*;

use crate::constants::{LISTING_ENDED_LABEL, REWARD_TIER_3};
use crate::errors::{MarketplaceError, MarketplaceErrorCode};
use crate::events::ListingEnded;
use crate::ledger::{spec_token_close, token_close, Address, TokenAccount};
use crate::state::{ListingV2, Marketplace, UserAccount};
use crate::transfer::{spec_transfer_asset, transfer_asset};
use crate::utils::{
    assert_allowed_claimer, assert_auction_ended, spec_transfer_sol, transfer_sol,
};

verus! {

/// Derivation bump of the loyalty record this operation may create.
#[derive(Clone, Copy, PartialEq, Eq, Structural, Debug)]
pub struct EndListingBumps {
    pub user_account: u8,
}

/// Everything settlement touches: the claimer and their loyalty record and
/// balances, the seller, the listing with its escrow, and the treasury.
pub struct EndListing {
    /// Identity claiming the ended auction.
    pub user: Address,
    /// Identity co-signing as marketplace admin.
    pub admin: Address,
    /// The claimer's loyalty record.
    pub user_account: UserAccount,
    /// The listing's seller.
    pub seller: Address,
    /// The claimer's custody account receiving the asset.
    pub user_ata: TokenAccount,
    /// The listed asset.
    pub mint: Address,
    /// The auction being settled.
    pub listing: ListingV2,
    /// Address of the listing record, carried into the ended-event.
    pub listing_pubkey: Address,
    /// The listing's escrow holding the asset.
    pub escrow: TokenAccount,
    /// The marketplace the listing belongs to.
    pub marketplace: Marketplace,
    /// The claimer's native-currency balance; it pays the winning bid.
    pub user_lamports: u64,
    /// The treasury's native-currency balance; it receives the winning bid.
    pub treasury_lamports: u64,
    /// The ledger's monotonic time counter at execution.
    pub current_slot: u64,
    /// Derivation bump of the claimer's loyalty record.
    pub bumps: EndListingBumps,
}

/// The error settling or delisting charges a claimer with, or nothing for
/// the entitled party: the highest bidder where one exists, else the
/// seller.
pub open spec fn spec_claimer_error(listing: ListingV2, who: Address) -> Option<
    MarketplaceErrorCode,
> {
    if listing.highest_bidder.is_empty() {
        if listing.seller != who {
            Some(MarketplaceErrorCode::ClaimerIsNotSeller)
        } else {
            None
        }
    } else {
        if listing.highest_bidder != who {
            Some(MarketplaceErrorCode::ClaimerIsNotHighestBidder)
        } else {
            None
        }
    }
}

impl EndListing {
    /// The fields settlement never touches.
    pub open spec fn frame(self, other: EndListing) -> bool {
        self.user == other.user && self.admin == other.admin && self.seller == other.seller
            && self.mint == other.mint && self.listing_pubkey == other.listing_pubkey
            && self.marketplace == other.marketplace && self.current_slot == other.current_slot
            && self.bumps == other.bumps
    }

    /// What taking the asset out of escrow does: `amount` units move to the
    /// claimer's custody over the chosen transfer path, then the escrow is
    /// closed — which the ledger only allows once it is empty. The result
    /// gives the new (escrow, claimer custody) pair.
    pub open spec fn spec_withdraw_and_close(self, amount: u64, route: Option<Address>) -> Result<
        (TokenAccount, TokenAccount),
        MarketplaceError,
    > {
        match spec_transfer_asset(self.escrow, self.user_ata, amount, route) {
            Err(e) => Err(e),
            Ok(moved) => match spec_token_close(moved.0) {
                Err(e) => Err(e),
                Ok(closed) => Ok((closed, moved.1)),
            },
        }
    }

    /// What settling does, checked in the order the rules are applied: the
    /// listing must still be active and past its deadline, the caller must
    /// be the entitled claimer; then the claimer pays the winning bid to
    /// the treasury, takes the asset, the emptied escrow is closed, and the
    /// listing is deactivated.
    pub open spec fn spec_end_listing(self, amount: u64, route: Option<Address>) -> Result<
        EndListing,
        MarketplaceError,
    > {
        if !self.listing.is_active {
            Err(MarketplaceError::Code(MarketplaceErrorCode::AuctionEnded))
        } else if !self.listing.ended_at(self.current_slot) {
            Err(MarketplaceError::Code(MarketplaceErrorCode::AuctionNotEnded))
        } else {
            match spec_claimer_error(self.listing, self.user) {
                Some(code) => Err(MarketplaceError::Code(code)),
                None => match spec_transfer_sol(
                    self.user_lamports,
                    self.treasury_lamports,
                    self.listing.current_bid,
                ) {
                    Err(e) => Err(e),
                    Ok(paid) => match self.spec_withdraw_and_close(amount, route) {
                        Err(e) => Err(e),
                        Ok(custody) => Ok(
                            EndListing {
                                user_lamports: paid.0,
                                treasury_lamports: paid.1,
                                escrow: custody.0,
                                user_ata: custody.1,
                                listing: ListingV2 { is_active: false, ..self.listing },
                                ..self
                            },
                        ),
                    },
                },
            }
        }
    }

    /// Settles the auction, exactly as [`EndListing::spec_end_listing`]
    /// says. The rule checks precede every move, so a rule failure changes
    /// nothing; a failed move fails the enclosing operation, which discards
    /// every in-memory change.
    pub fn end_listing(&mut self, amount: u64, route: Option<Address>) -> (r: Result<
        (),
        MarketplaceError,
    >)
        ensures
            match old(self).spec_end_listing(amount, route) {
                Ok(next) => r is Ok && *final(self) == next,
                Err(e) => r == Err::<(), MarketplaceError>(e),
            },
            old(self).frame(*final(self)),
            r is Err ==> final(self).listing == old(self).listing && final(self).user_account
                == old(self).user_account,
    {
        if !self.listing.is_active {
            return Err(MarketplaceError::Code(MarketplaceErrorCode::AuctionEnded));
        }
        assert_auction_ended(&self.listing, self.current_slot)?;
        assert_allowed_claimer(&self.listing, &self.user)?;

        // The claimer pays the winning bid to the treasury.
        transfer_sol(&mut self.user_lamports, &mut self.treasury_lamports, self.listing.current_bid)?;

        // The asset leaves escrow for the claimer and the escrow is closed.
        self.withdraw_and_close(amount, route)?;

        self.listing.is_active = false;

        Ok(())
    }

    /// Takes the asset out of escrow and closes the escrow, exactly as
    /// [`EndListing::spec_withdraw_and_close`] says.
    pub fn withdraw_and_close(&mut self, amount: u64, route: Option<Address>) -> (r: Result<
        (),
        MarketplaceError,
    >)
        ensures
            match spec_transfer_asset(old(self).escrow, old(self).user_ata, amount, route) {
                Err(e) => r == Err::<(), MarketplaceError>(e) && *final(self) == *old(self),
                Ok(moved) => match spec_token_close(moved.0) {
                    Err(e) => r == Err::<(), MarketplaceError>(e) && *final(self) == (EndListing {
                        escrow: moved.0,
                        user_ata: moved.1,
                        ..*old(self)
                    }),
                    Ok(closed) => r is Ok && *final(self) == (EndListing {
                        escrow: closed,
                        user_ata: moved.1,
                        ..*old(self)
                    }),
                },
            },
    {
        transfer_asset(amount, &mut self.escrow, &mut self.user_ata, route)?;
        token_close(&mut self.escrow)
    }

    /// Builds the ended-event for observers; the caller publishes it.
    pub fn emit_listing_ended(&self) -> (r: ListingEnded)
        ensures
            r.listing_pubkey == self.listing_pubkey,
            r.label@ == LISTING_ENDED_LABEL@,
    {
        ListingEnded {
            listing_pubkey: self.listing_pubkey,
            label: LISTING_ENDED_LABEL.to_owned(),
        }
    }

    /// What rewarding the claimer does: the record is stamped with its
    /// bump, and gains one tier-3 grant and one more won auction — or an
    /// overflow failure that changes nothing.
    pub open spec fn spec_reward_user(self, bump: u8) -> Result<UserAccount, MarketplaceError> {
        if self.user_account.points + REWARD_TIER_3 > u32::MAX {
            Err(MarketplaceError::ArithmeticOverflow)
        } else if self.user_account.total_auctions_won + 1 > u32::MAX {
            Err(MarketplaceError::ArithmeticOverflow)
        } else {
            Ok(
                UserAccount {
                    bump,
                    points: (self.user_account.points + REWARD_TIER_3) as u32,
                    total_auctions_won: (self.user_account.total_auctions_won + 1) as u32,
                    ..self.user_account
                },
            )
        }
    }

    /// Grants the claimer a tier-3 point grant and counts the won auction,
    /// exactly as [`EndListing::spec_reward_user`] says. An overflow fails
    /// the whole operation and changes nothing.
    pub fn reward_user(&mut self, bump: u8) -> (r: Result<(), MarketplaceError>)
        ensures
            match old(self).spec_reward_user(bump) {
                Ok(rewarded) => r is Ok && *final(self) == (EndListing {
                    user_account: rewarded,
                    ..*old(self)
                }),
                Err(e) => r == Err::<(), MarketplaceError>(e) && *final(self) == *old(self),
            },
    {
        let new_points = match self.user_account.points.checked_add(REWARD_TIER_3) {
            Some(v) => v,
            None => {
                return Err(MarketplaceError::ArithmeticOverflow);
            },
        };
        let new_won = match self.user_account.total_auctions_won.checked_add(1) {
            Some(v) => v,
            None => {
                return Err(MarketplaceError::ArithmeticOverflow);
            },
        };
        self.user_account.bump = bump;
        self.user_account.points = new_points;
        self.user_account.total_auctions_won = new_won;
        Ok(())
    }
}

} // verus!
