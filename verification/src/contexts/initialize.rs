//! Creating a marketplace: validating its display name and recording its
//! admin, credit asset, treasury, fee and mint-cost tiers. The credit
//! asset itself — a non-transferable mint with metadata — is created by
//! the surrounding process on the ledger.

use vstd::prelude::*;

use vstd::utf8::encode_utf8;

use crate::constants::MARKET_INITIALIZED_LABEL;
use crate::errors::{MarketplaceError, MarketplaceErrorCode};
use crate::events::MarketplaceInitialized;
use crate::ledger::Address;
use crate::state::{Marketplace, MintTier};

verus! {

/// Derivation bumps of the accounts this operation creates.
#[derive(Clone, Copy, PartialEq, Eq, Structural, Debug)]
pub struct InitializeBumps {
    pub marketplace: u8,
    pub treasury: u8,
}

/// Everything creating a marketplace touches: the admin, the credit asset
/// and the treasury it binds together, and the registry record it fills
/// in.
pub struct Initialize {
    /// Identity that will administer the marketplace.
    pub admin: Address,
    /// The marketplace's bid-credit asset.
    pub sbid_mint: Address,
    /// The marketplace's treasury address.
    pub treasury: Address,
    /// The registry record this operation fills in.
    pub marketplace: Marketplace,
    /// Address of the registry record.
    pub marketplace_pubkey: Address,
    /// Derivation bumps of the created accounts.
    pub bumps: InitializeBumps,
}

/// Whether a display name is acceptable: between 1 and 32 bytes, the byte
/// count read off as the machine-sized length the ledger stores.
pub open spec fn spec_name_ok(name: Seq<char>) -> bool {
    0 < (encode_utf8(name).len() as usize) && (encode_utf8(name).len() as usize) < 33
}

impl Initialize {
    /// The fields creating a marketplace never touches.
    pub open spec fn frame(self, other: Initialize) -> bool {
        self.admin == other.admin && self.sbid_mint == other.sbid_mint && self.treasury
            == other.treasury && self.marketplace_pubkey == other.marketplace_pubkey && self.bumps
            == other.bumps
    }

    /// What creating a marketplace does: the name must be between 1 and 32
    /// bytes; then the registry records admin, credit asset, treasury,
    /// fee, name, tiers and bumps.
    pub open spec fn spec_initialize_marketplace(
        self,
        name: String,
        fee: u16,
        mint_tiers: [MintTier; 3],
        bumps: InitializeBumps,
    ) -> Result<Marketplace, MarketplaceError> {
        if !spec_name_ok(name@) {
            Err(MarketplaceError::Code(MarketplaceErrorCode::MarketplaceNameTooLong))
        } else {
            Ok(
                Marketplace {
                    admin: self.admin,
                    sbid_mint: self.sbid_mint,
                    treasury: self.treasury,
                    fee,
                    name,
                    mint_tiers,
                    bump: bumps.marketplace,
                    treasury_bump: bumps.treasury,
                },
            )
        }
    }

    /// Fills the registry record in, exactly as
    /// [`Initialize::spec_initialize_marketplace`] says. On failure
    /// nothing changes.
    pub fn initialize_marketplace(
        &mut self,
        name: String,
        fee: u16,
        mint_tiers: [MintTier; 3],
        bumps: &InitializeBumps,
    ) -> (r: Result<(), MarketplaceError>)
        ensures
            match old(self).spec_initialize_marketplace(name, fee, mint_tiers, *bumps) {
                Ok(created) => r is Ok && *final(self) == (Initialize {
                    marketplace: created,
                    ..*old(self)
                }),
                Err(e) => r == Err::<(), MarketplaceError>(e) && *final(self) == *old(self),
            },
    {
        let name_bytes = name.as_str().len();
        if !(name_bytes > 0 && name_bytes < 33) {
            return Err(MarketplaceError::Code(MarketplaceErrorCode::MarketplaceNameTooLong));
        }

        self.marketplace = Marketplace {
            admin: self.admin,
            sbid_mint: self.sbid_mint,
            treasury: self.treasury,
            fee,
            name,
            mint_tiers,
            bump: bumps.marketplace,
            treasury_bump: bumps.treasury,
        };

        Ok(())
    }

    /// Builds the initialized-event for observers; the caller publishes it.
    pub fn emit_marketplace_initialized(&self) -> (r: MarketplaceInitialized)
        ensures
            r.marketplace_pubkey == self.marketplace_pubkey,
            r.label@ == MARKET_INITIALIZED_LABEL@,
    {
        MarketplaceInitialized {
            marketplace_pubkey: self.marketplace_pubkey,
            label: MARKET_INITIALIZED_LABEL.to_owned(),
        }
    }
}

} // verus!
