//! The custody/transfer adapter: one operation that moves asset units
//! between custody accounts over either of the ledger's two transfer paths
//! — the plain checked transfer, or the rules-enforced transfer through the
//! asset-metadata program when the caller supplied its extra authorization
//! accounts. Which path runs is decided here; both paths move the same
//! amount, and the rules path first checks that the account offered as the
//! rules engine really is the asset-metadata program.

use vstd::prelude::*;

use crate::errors::{MarketplaceError, MarketplaceErrorCode};
use crate::ledger::{spec_token_transfer, token_transfer, Address, TokenAccount};

verus! {

/// The address of the asset-metadata program whose rules-enforced transfer
/// the adapter accepts, as four little-endian 64-bit limbs of its 32-byte
/// key.
pub open spec fn spec_mpl_token_metadata_id() -> Address {
    Address {
        w0: 0x457cd1e3b165700b,
        w1: 0xcdc3046b7f529d38,
        w2: 0xb5fda01a736cb858,
        w3: 0x4629f803bcd1b649,
    }
}

/// The address of the asset-metadata program, as an executable value.
pub fn mpl_token_metadata_id() -> (r: Address)
    ensures
        r == spec_mpl_token_metadata_id(),
{
    Address {
        w0: 0x457cd1e3b165700b,
        w1: 0xcdc3046b7f529d38,
        w2: 0xb5fda01a736cb858,
        w3: 0x4629f803bcd1b649,
    }
}

/// What the adapter does: with no extra authorization account the plain
/// checked transfer runs; with one, it must be the asset-metadata program,
/// and then the rules-enforced transfer moves the same amount.
pub open spec fn spec_transfer_asset(
    from: TokenAccount,
    to: TokenAccount,
    amount: u64,
    route: Option<Address>,
) -> Result<(TokenAccount, TokenAccount), MarketplaceError> {
    match route {
        Some(program) => if program != spec_mpl_token_metadata_id() {
            Err(MarketplaceError::Code(MarketplaceErrorCode::InvalidMetadataProgram))
        } else {
            spec_token_transfer(from, to, amount)
        },
        None => spec_token_transfer(from, to, amount),
    }
}

/// Moves `amount` units of the asset from one custody account to another,
/// exactly as [`spec_transfer_asset`] says. `route` carries the address of
/// the rules-engine program when the caller supplied extra authorization
/// accounts, and nothing for the plain path. On failure nothing moves.
pub fn transfer_asset(
    amount: u64,
    from: &mut TokenAccount,
    to: &mut TokenAccount,
    route: Option<Address>,
) -> (r: Result<(), MarketplaceError>)
    ensures
        match spec_transfer_asset(*old(from), *old(to), amount, route) {
            Ok(moved) => r is Ok && *final(from) == moved.0 && *final(to) == moved.1,
            Err(e) => r == Err::<(), MarketplaceError>(e) && *final(from) == *old(from)
                && *final(to) == *old(to),
        },
{
    match route {
        Some(program) => {
            let expected = mpl_token_metadata_id();
            if program != expected {
                return Err(MarketplaceError::Code(MarketplaceErrorCode::InvalidMetadataProgram));
            }
            token_transfer(from, to, amount)
        },
        None => token_transfer(from, to, amount),
    }
}

} // verus!
