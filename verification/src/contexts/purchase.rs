//! Buying a listed asset outright at its buyout price: the payment splits
//! between treasury fee and seller proceeds, the asset leaves the vault for
//! the buyer, and the vault is closed.

use vstd::prelude::*;

use crate::errors::MarketplaceError;
use crate::ledger::{
    spec_token_close, spec_token_transfer, token_close, token_transfer, Address, TokenAccount,
};
use crate::state::{ListingV2, Marketplace};
use crate::utils::{spec_transfer_sol, transfer_sol};

verus! {

/// The treasury's cut of a buyout: the buyout price times the fee in basis
/// points, divided by ten thousand and rounded down — or nothing where the
/// product overflows.
pub open spec fn spec_fee_amount(buyout_price: u64, fee_bps: u16) -> Option<u64> {
    if buyout_price * fee_bps > u64::MAX {
        None
    } else {
        Some(((buyout_price * fee_bps) / 10000) as u64)
    }
}

/// Everything a buyout touches: the buyer and seller with their balances,
/// the listing and its vault, the buyer's custody account and the
/// treasury.
pub struct Purchase {
    /// Identity buying the asset outright.
    pub buyer: Address,
    /// The buyer's native-currency balance; it pays the buyout price.
    pub buyer_lamports: u64,
    /// The listing's seller.
    pub seller: Address,
    /// The seller's native-currency balance; it receives the proceeds.
    pub seller_lamports: u64,
    /// The listed asset.
    pub mint: Address,
    /// The buyer's custody account receiving the asset.
    pub taker_ata: TokenAccount,
    /// The listing being bought out.
    pub listing: ListingV2,
    /// The marketplace the listing belongs to.
    pub marketplace: Marketplace,
    /// The listing's vault holding the asset.
    pub vault: TokenAccount,
    /// The treasury's native-currency balance; it receives the fee.
    pub treasury_lamports: u64,
}

impl Purchase {
    /// The fields a buyout never touches.
    pub open spec fn frame(self, other: Purchase) -> bool {
        self.buyer == other.buyer && self.seller == other.seller && self.mint == other.mint
            && self.listing == other.listing && self.marketplace == other.marketplace
    }

    /// What a buyout does, in the order the moves are made: the fee part of
    /// the buyout price goes from buyer to treasury, the rest to the
    /// seller, the asset unit leaves the vault for the buyer, and the
    /// emptied vault is closed. The runtime then also closes the listing
    /// record itself, returning its rent to the seller.
    pub open spec fn spec_purchase(self) -> Result<Purchase, MarketplaceError> {
        match spec_fee_amount(self.listing.buyout_price, self.marketplace.fee) {
            None => Err(MarketplaceError::ArithmeticOverflow),
            Some(fee) => match spec_transfer_sol(
                self.buyer_lamports,
                self.treasury_lamports,
                fee,
            ) {
                Err(e) => Err(e),
                Ok(to_treasury) => if self.listing.buyout_price - fee < 0 {
                    Err(MarketplaceError::ArithmeticOverflow)
                } else {
                    match spec_transfer_sol(
                        to_treasury.0,
                        self.seller_lamports,
                        (self.listing.buyout_price - fee) as u64,
                    ) {
                        Err(e) => Err(e),
                        Ok(to_seller) => match spec_token_transfer(self.vault, self.taker_ata, 1) {
                            Err(e) => Err(e),
                            Ok(moved) => match spec_token_close(moved.0) {
                                Err(e) => Err(e),
                                Ok(closed) => Ok(
                                    Purchase {
                                        buyer_lamports: to_seller.0,
                                        treasury_lamports: to_treasury.1,
                                        seller_lamports: to_seller.1,
                                        vault: closed,
                                        taker_ata: moved.1,
                                        ..self
                                    },
                                ),
                            },
                        },
                    }
                },
            },
        }
    }

    /// Buys the asset outright, exactly as [`Purchase::spec_purchase`]
    /// says. On success the fee and the seller's part together are exactly
    /// the buyout price, and the vault no longer exists. A failed move
    /// fails the enclosing operation, which discards every in-memory
    /// change.
    pub fn purchase(&mut self) -> (r: Result<(), MarketplaceError>)
        ensures
            match old(self).spec_purchase() {
                Ok(next) => r is Ok && *final(self) == next,
                Err(e) => r == Err::<(), MarketplaceError>(e),
            },
            old(self).frame(*final(self)),
            r is Ok ==> !final(self).vault.exists && final(self).vault.amount == 0,
            r is Ok ==> final(self).treasury_lamports - old(self).treasury_lamports
                + final(self).seller_lamports - old(self).seller_lamports
                == old(self).listing.buyout_price,
            r is Ok ==> old(self).buyer_lamports - final(self).buyer_lamports
                == old(self).listing.buyout_price,
    {
        let amount_to_treasury = match self.listing.buyout_price.checked_mul(
            self.marketplace.fee as u64,
        ) {
            Some(product) => match product.checked_div(10000) {
                Some(v) => v,
                None => {
                    return Err(MarketplaceError::ArithmeticOverflow);
                },
            },
            None => {
                return Err(MarketplaceError::ArithmeticOverflow);
            },
        };

        // The fee part of the price goes to the treasury.
        transfer_sol(&mut self.buyer_lamports, &mut self.treasury_lamports, amount_to_treasury)?;

        let amount_to_maker = match self.listing.buyout_price.checked_sub(amount_to_treasury) {
            Some(v) => v,
            None => {
                return Err(MarketplaceError::ArithmeticOverflow);
            },
        };

        // The rest of the price goes to the seller.
        transfer_sol(&mut self.buyer_lamports, &mut self.seller_lamports, amount_to_maker)?;

        // The asset goes to the buyer; vault and listing record close.
        self.withdraw_nft_and_close()
    }

    /// Moves the asset unit from the vault to the buyer's custody and
    /// closes the emptied vault.
    pub fn withdraw_nft_and_close(&mut self) -> (r: Result<(), MarketplaceError>)
        ensures
            match spec_token_transfer(old(self).vault, old(self).taker_ata, 1) {
                Err(e) => r == Err::<(), MarketplaceError>(e) && *final(self) == *old(self),
                Ok(moved) => match spec_token_close(moved.0) {
                    Err(e) => r == Err::<(), MarketplaceError>(e) && *final(self) == (Purchase {
                        vault: moved.0,
                        taker_ata: moved.1,
                        ..*old(self)
                    }),
                    Ok(closed) => r is Ok && *final(self) == (Purchase {
                        vault: closed,
                        taker_ata: moved.1,
                        ..*old(self)
                    }),
                },
            },
    {
        token_transfer(&mut self.vault, &mut self.taker_ata, 1)?;
        token_close(&mut self.vault)
    }
}

} // verus!
