//! Withdrawing a listing before any bid: once the auction's deadline has
//! passed and no bid was ever placed, the asset returns to the seller and
//! the vault is closed.

use vstd::prelude::*;

use crate::constants::LISTING_DELISTED_LABEL;
use crate::errors::{MarketplaceError, MarketplaceErrorCode};
use crate::events::ListingDelisted;
use crate::ledger::{
    spec_token_close, spec_token_transfer, token_close, token_transfer, Address, TokenAccount,
};
use crate::state::{ListingV2, Marketplace};
use crate::utils::{assert_auction_delist_eligible, assert_auction_ended};

verus! {

/// Everything a delisting touches: the seller taking the asset back, the
/// listing and the vault holding the asset.
pub struct Delist {
    /// The seller withdrawing the listing.
    pub maker: Address,
    /// The marketplace the listing belongs to.
    pub marketplace: Marketplace,
    /// The listed asset.
    pub maker_mint: Address,
    /// The seller's custody account receiving the asset back.
    pub maker_ata: TokenAccount,
    /// The listing being withdrawn.
    pub listing: ListingV2,
    /// Address of the listing record.
    pub listing_pubkey: Address,
    /// The listing's vault holding the asset.
    pub vault: TokenAccount,
    /// The ledger's monotonic time counter at execution.
    pub current_slot: u64,
}

impl Delist {
    /// The fields a delisting never touches.
    pub open spec fn frame(self, other: Delist) -> bool {
        self.maker == other.maker && self.marketplace == other.marketplace && self.maker_mint
            == other.maker_mint && self.listing == other.listing && self.listing_pubkey
            == other.listing_pubkey && self.current_slot == other.current_slot
    }

    /// What delisting does, checked in the order the rules are applied:
    /// the deadline must have passed, no bid may ever have been placed
    /// (the highest bidder still empty and the current bid zero); then the
    /// asset unit returns to the seller and the emptied vault is closed.
    /// The runtime then also closes the listing record itself.
    pub open spec fn spec_withdraw_and_close(self) -> Result<Delist, MarketplaceError> {
        if !self.listing.ended_at(self.current_slot) {
            Err(MarketplaceError::Code(MarketplaceErrorCode::AuctionNotEnded))
        } else if !self.listing.highest_bidder.is_empty() {
            Err(MarketplaceError::Code(MarketplaceErrorCode::CannotDelistWithActiveBidder))
        } else if self.listing.current_bid != 0 {
            Err(MarketplaceError::Code(MarketplaceErrorCode::CannotDelistWithActiveCurrentBidPrice))
        } else {
            match spec_token_transfer(self.vault, self.maker_ata, 1) {
                Err(e) => Err(e),
                Ok(moved) => match spec_token_close(moved.0) {
                    Err(e) => Err(e),
                    Ok(closed) => Ok(
                        Delist { vault: closed, maker_ata: moved.1, ..self },
                    ),
                },
            }
        }
    }

    /// Returns the asset to the seller and closes the vault, exactly as
    /// [`Delist::spec_withdraw_and_close`] says: it succeeds if and only if
    /// the deadline has passed, no bid was ever placed, and the vault still
    /// holds exactly the one asset unit. The rule checks precede every
    /// move, so a rule failure changes nothing; a failed move fails the
    /// enclosing operation, which discards every in-memory change.
    pub fn withdraw_and_close(&mut self) -> (r: Result<(), MarketplaceError>)
        ensures
            match old(self).spec_withdraw_and_close() {
                Ok(next) => r is Ok && *final(self) == next,
                Err(e) => r == Err::<(), MarketplaceError>(e),
            },
            old(self).frame(*final(self)),
            r is Ok ==> !final(self).vault.exists && final(self).vault.amount == 0,
    {
        assert_auction_ended(&self.listing, self.current_slot)?;
        assert_auction_delist_eligible(&self.listing)?;

        token_transfer(&mut self.vault, &mut self.maker_ata, 1)?;
        token_close(&mut self.vault)
    }

    /// Builds the delisted-event for observers; the caller publishes it.
    pub fn emit_listing_delisted(&self) -> (r: ListingDelisted)
        ensures
            r.listing_pubkey == self.listing_pubkey,
            r.label@ == LISTING_DELISTED_LABEL@,
    {
        ListingDelisted {
            listing_pubkey: self.listing_pubkey,
            label: LISTING_DELISTED_LABEL.to_owned(),
        }
    }
}

} // verus!
