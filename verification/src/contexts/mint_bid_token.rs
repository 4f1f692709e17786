//! Buying bid credits: the caller pays the configured tier's cost to the
//! treasury and receives the tier's credit amount plus bonus, minted by
//! the marketplace's derived authority.

use vstd::prelude::*;

use crate::constants::REWARD_TIER_1;
use crate::errors::MarketplaceError;
use crate::ledger::{spec_token_mint_to, token_mint_to, Address, TokenAccount};
use crate::state::{Marketplace, MintCostTier, UserAccount};
use crate::utils::{
    assert_valid_mint_tier_costs, get_mint_tier, spec_mint_tier, spec_transfer_sol,
    tier_configured, transfer_sol,
};

verus! {

/// Derivation bump of the loyalty record this operation may create.
#[derive(Clone, Copy, PartialEq, Eq, Structural, Debug)]
pub struct MintBidTokenBumps {
    pub user_account: u8,
}

/// Everything buying bid credits touches: the buyer with their balance,
/// loyalty record and credit account, the marketplace and its treasury.
pub struct MintBidToken {
    /// Identity signing as marketplace admin.
    pub admin: Address,
    /// Identity buying bid credits.
    pub user: Address,
    /// The buyer's native-currency balance; it pays the tier's cost.
    pub user_lamports: u64,
    /// The buyer's loyalty record.
    pub user_account: UserAccount,
    /// The marketplace whose credits are bought.
    pub marketplace: Marketplace,
    /// The treasury's native-currency balance; it receives the cost.
    pub treasury_lamports: u64,
    /// The marketplace's bid-credit asset.
    pub sbid_mint: Address,
    /// The buyer's bid-credit account receiving the minted credits.
    pub user_sbid_ata: TokenAccount,
    /// Derivation bump of the buyer's loyalty record.
    pub bumps: MintBidTokenBumps,
}

impl MintBidToken {
    /// The fields buying credits never touches.
    pub open spec fn frame(self, other: MintBidToken) -> bool {
        self.admin == other.admin && self.user == other.user && self.marketplace
            == other.marketplace && self.sbid_mint == other.sbid_mint && self.bumps == other.bumps
    }

    /// What buying credits does, in the order the moves are made: the
    /// tier's cost goes from buyer to treasury, then the tier's amount plus
    /// bonus is minted into the buyer's credit account.
    pub open spec fn spec_mint_token(self, tier: MintCostTier) -> Result<
        MintBidToken,
        MarketplaceError,
    > {
        let entry = spec_mint_tier(self.marketplace.mint_tiers, tier);
        match spec_transfer_sol(self.user_lamports, self.treasury_lamports, entry.cost) {
            Err(e) => Err(e),
            Ok(paid) => if entry.amount + entry.bonus > u64::MAX {
                Err(MarketplaceError::ArithmeticOverflow)
            } else {
                match spec_token_mint_to(
                    self.user_sbid_ata,
                    (entry.amount + entry.bonus) as u64,
                ) {
                    Err(e) => Err(e),
                    Ok(minted) => Ok(
                        MintBidToken {
                            user_lamports: paid.0,
                            treasury_lamports: paid.1,
                            user_sbid_ata: minted,
                            ..self
                        },
                    ),
                }
            },
        }
    }

    /// Buys the tier's credits, exactly as [`MintBidToken::spec_mint_token`]
    /// says. The requested tier must be configured in the marketplace's
    /// table: a missing tier would abort the lookup, so the caller checks
    /// first. A failed move fails the enclosing operation,
    /// which discards every in-memory change.
    pub fn mint_token(&mut self, tier: MintCostTier) -> (r: Result<(), MarketplaceError>)
        requires
            tier_configured(old(self).marketplace.mint_tiers, tier),
        ensures
            match old(self).spec_mint_token(tier) {
                Ok(next) => r is Ok && *final(self) == next,
                Err(e) => r == Err::<(), MarketplaceError>(e),
            },
            old(self).frame(*final(self)),
            r is Err ==> final(self).user_account == old(self).user_account,
    {
        assert_valid_mint_tier_costs(tier)?;

        let mint_tier = *get_mint_tier(&self.marketplace.mint_tiers, tier);

        // The tier's cost goes to the treasury.
        transfer_sol(&mut self.user_lamports, &mut self.treasury_lamports, mint_tier.cost)?;

        let amount = match mint_tier.amount.checked_add(mint_tier.bonus) {
            Some(v) => v,
            None => {
                return Err(MarketplaceError::ArithmeticOverflow);
            },
        };

        // Amount plus bonus is minted into the buyer's credit account.
        token_mint_to(&mut self.user_sbid_ata, amount)
    }

    /// What rewarding the buyer does: the record is stamped with its bump
    /// and gains one tier-1 point — or an overflow failure that changes
    /// nothing.
    pub open spec fn spec_reward_user(self, bump: u8) -> Result<UserAccount, MarketplaceError> {
        if self.user_account.points + REWARD_TIER_1 > u32::MAX {
            Err(MarketplaceError::ArithmeticOverflow)
        } else {
            Ok(
                UserAccount {
                    bump,
                    points: (self.user_account.points + REWARD_TIER_1) as u32,
                    ..self.user_account
                },
            )
        }
    }

    /// Grants the buyer one tier-1 point, exactly as
    /// [`MintBidToken::spec_reward_user`] says. An overflow fails the
    /// whole operation and changes nothing.
    pub fn reward_user(&mut self, bump: u8) -> (r: Result<(), MarketplaceError>)
        ensures
            match old(self).spec_reward_user(bump) {
                Ok(rewarded) => r is Ok && *final(self) == (MintBidToken {
                    user_account: rewarded,
                    ..*old(self)
                }),
                Err(e) => r == Err::<(), MarketplaceError>(e) && *final(self) == *old(self),
            },
    {
        let new_points = match self.user_account.points.checked_add(REWARD_TIER_1) {
            Some(v) => v,
            None => {
                return Err(MarketplaceError::ArithmeticOverflow);
            },
        };
        self.user_account.bump = bump;
        self.user_account.points = new_points;
        Ok(())
    }
}

} // verus!
