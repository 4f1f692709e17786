//! Replacing a marketplace's mint-cost tier table, an admin-only update.

use vstd::prelude::*;

use crate::errors::MarketplaceError;
use crate::ledger::Address;
use crate::state::{Marketplace, MintTier};

verus! {

/// Everything a tier update touches: the admin and the registry record.
pub struct UpdateMarketplace {
    /// Identity signing the update; must be the registry's admin.
    pub admin: Address,
    /// The registry being updated.
    pub marketplace: Marketplace,
}

impl UpdateMarketplace {
    /// Replaces the mint-cost tier table; everything else stays.
    pub fn update_mint_tiers(&mut self, tiers: [MintTier; 3]) -> (r: Result<(), MarketplaceError>)
        ensures
            r is Ok,
            *final(self) == (UpdateMarketplace {
                marketplace: Marketplace { mint_tiers: tiers, ..old(self).marketplace },
                ..*old(self)
            }),
    {
        self.marketplace.mint_tiers = tiers;
        Ok(())
    }
}

} // verus!
