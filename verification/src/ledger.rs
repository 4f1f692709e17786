//! The library's model of the ledger pieces that the marketplace logic reads
//! and writes: account addresses, token-account balances, and the
//! token-program primitives (transfer, burn, mint, close) on them. Each
//! primitive is a verified transition on plain values, stated once as a spec
//! function and once as executable code; the process that runs the
//! marketplace applies the same move to the real ledger.

use vstd::prelude::*;

use crate::errors::MarketplaceError;

verus! {

/// A ledger address, as the logic reads it: an opaque 32-byte identity,
/// held as four 64-bit little-endian limbs. Two addresses are the same
/// account exactly when all four limbs agree; the all-zero address is the
/// distinguished "empty" identity that a fresh listing records as its
/// highest bidder.
#[derive(Clone, Copy, PartialEq, Eq, Structural, Debug)]
pub struct Address {
    pub w0: u64,
    pub w1: u64,
    pub w2: u64,
    pub w3: u64,
}

impl Address {
    /// The all-zero address.
    pub open spec fn spec_empty() -> Address {
        Address { w0: 0, w1: 0, w2: 0, w3: 0 }
    }

    /// Whether this is the all-zero address.
    pub open spec fn is_empty(self) -> bool {
        self == Address::spec_empty()
    }

    /// Builds an address from its four little-endian 64-bit limbs.
    pub fn new(w0: u64, w1: u64, w2: u64, w3: u64) -> (r: Address)
        ensures
            r == (Address { w0, w1, w2, w3 }),
    {
        Address { w0, w1, w2, w3 }
    }
}

impl Default for Address {
    /// The default address is the empty identity.
    fn default() -> (r: Self)
        ensures
            r == Address::spec_empty(),
    {
        Address { w0: 0, w1: 0, w2: 0, w3: 0 }
    }
}

/// A token account as the logic sees it: whether the account still exists
/// on the ledger, and how many base units of its asset it holds. A closed
/// account holds nothing and accepts nothing.
#[derive(Clone, Copy, PartialEq, Eq, Structural, Debug)]
pub struct TokenAccount {
    /// False once the account has been closed and its rent returned.
    pub exists: bool,
    /// Base units of the account's asset held in custody.
    pub amount: u64,
}

impl TokenAccount {
    /// An open account holding `amount` base units.
    pub fn open_with(amount: u64) -> (r: TokenAccount)
        ensures
            r == (TokenAccount { exists: true, amount }),
    {
        TokenAccount { exists: true, amount }
    }
}

/// What the token program's checked transfer does: both accounts must
/// exist, the source must hold the amount, and the destination balance must
/// not overflow; then the amount moves. The result gives the new (source,
/// destination) pair.
pub open spec fn spec_token_transfer(from: TokenAccount, to: TokenAccount, amount: u64) -> Result<
    (TokenAccount, TokenAccount),
    MarketplaceError,
> {
    if !from.exists || !to.exists {
        Err(MarketplaceError::AccountClosed)
    } else if from.amount < amount {
        Err(MarketplaceError::InsufficientFunds)
    } else if to.amount + amount > u64::MAX {
        Err(MarketplaceError::BalanceOverflow)
    } else {
        Ok(
            (
                TokenAccount { exists: true, amount: (from.amount - amount) as u64 },
                TokenAccount { exists: true, amount: (to.amount + amount) as u64 },
            ),
        )
    }
}

/// Moves `amount` base units from one token account to another, exactly as
/// [`spec_token_transfer`] says. On failure nothing moves.
pub fn token_transfer(
    from: &mut TokenAccount,
    to: &mut TokenAccount,
    amount: u64,
) -> (r: Result<(), MarketplaceError>)
    ensures
        match spec_token_transfer(*old(from), *old(to), amount) {
            Ok(moved) => r is Ok && *final(from) == moved.0 && *final(to) == moved.1,
            Err(e) => r == Err::<(), MarketplaceError>(e) && *final(from) == *old(from)
                && *final(to) == *old(to),
        },
{
    if !from.exists || !to.exists {
        return Err(MarketplaceError::AccountClosed);
    }
    if from.amount < amount {
        return Err(MarketplaceError::InsufficientFunds);
    }
    match to.amount.checked_add(amount) {
        Some(new_to) => {
            from.amount = from.amount - amount;
            to.amount = new_to;
            Ok(())
        },
        None => Err(MarketplaceError::BalanceOverflow),
    }
}

/// What the token program's burn does: the account must exist and hold the
/// amount; then the amount is destroyed. The result gives the new account.
pub open spec fn spec_token_burn(acct: TokenAccount, amount: u64) -> Result<
    TokenAccount,
    MarketplaceError,
> {
    if !acct.exists {
        Err(MarketplaceError::AccountClosed)
    } else if acct.amount < amount {
        Err(MarketplaceError::InsufficientFunds)
    } else {
        Ok(TokenAccount { exists: true, amount: (acct.amount - amount) as u64 })
    }
}

/// Burns `amount` base units out of a token account, exactly as
/// [`spec_token_burn`] says. On failure nothing changes.
pub fn token_burn(acct: &mut TokenAccount, amount: u64) -> (r: Result<(), MarketplaceError>)
    ensures
        match spec_token_burn(*old(acct), amount) {
            Ok(burned) => r is Ok && *final(acct) == burned,
            Err(e) => r == Err::<(), MarketplaceError>(e) && *final(acct) == *old(acct),
        },
{
    if !acct.exists {
        return Err(MarketplaceError::AccountClosed);
    }
    if acct.amount < amount {
        return Err(MarketplaceError::InsufficientFunds);
    }
    acct.amount = acct.amount - amount;
    Ok(())
}

/// What the token program's mint does: the account must exist and its
/// balance must not overflow; then the amount is created in it. The result
/// gives the new account.
pub open spec fn spec_token_mint_to(acct: TokenAccount, amount: u64) -> Result<
    TokenAccount,
    MarketplaceError,
> {
    if !acct.exists {
        Err(MarketplaceError::AccountClosed)
    } else if acct.amount + amount > u64::MAX {
        Err(MarketplaceError::BalanceOverflow)
    } else {
        Ok(TokenAccount { exists: true, amount: (acct.amount + amount) as u64 })
    }
}

/// Mints `amount` base units into a token account, exactly as
/// [`spec_token_mint_to`] says. On failure nothing changes.
pub fn token_mint_to(acct: &mut TokenAccount, amount: u64) -> (r: Result<(), MarketplaceError>)
    ensures
        match spec_token_mint_to(*old(acct), amount) {
            Ok(minted) => r is Ok && *final(acct) == minted,
            Err(e) => r == Err::<(), MarketplaceError>(e) && *final(acct) == *old(acct),
        },
{
    if !acct.exists {
        return Err(MarketplaceError::AccountClosed);
    }
    match acct.amount.checked_add(amount) {
        Some(new_amount) => {
            acct.amount = new_amount;
            Ok(())
        },
        None => Err(MarketplaceError::BalanceOverflow),
    }
}

/// What the token program's close does: the account must exist and must
/// hold no tokens; then it stops existing and its rent is returned.
pub open spec fn spec_token_close(acct: TokenAccount) -> Result<TokenAccount, MarketplaceError> {
    if !acct.exists {
        Err(MarketplaceError::AccountClosed)
    } else if acct.amount != 0 {
        Err(MarketplaceError::AccountNotEmpty)
    } else {
        Ok(TokenAccount { exists: false, amount: 0 })
    }
}

/// Closes a token account, exactly as [`spec_token_close`] says. On failure
/// nothing changes.
pub fn token_close(acct: &mut TokenAccount) -> (r: Result<(), MarketplaceError>)
    ensures
        match spec_token_close(*old(acct)) {
            Ok(closed) => r is Ok && *final(acct) == closed,
            Err(e) => r == Err::<(), MarketplaceError>(e) && *final(acct) == *old(acct),
        },
{
    if !acct.exists {
        return Err(MarketplaceError::AccountClosed);
    }
    if acct.amount != 0 {
        return Err(MarketplaceError::AccountNotEmpty);
    }
    acct.exists = false;
    Ok(())
}

} // verus!
