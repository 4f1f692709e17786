//! Creating a participant's loyalty record, with every counter at zero.

use vstd::prelude::*;

use crate::constants::USER_CREATED_LABEL;
use crate::errors::MarketplaceError;
use crate::events::UserCreated;
use crate::ledger::Address;
use crate::state::{Marketplace, UserAccount};

verus! {

/// Derivation bump of the record this operation creates.
#[derive(Clone, Copy, PartialEq, Eq, Structural, Debug)]
pub struct InitializeUserBumps {
    pub user_account: u8,
}

/// Everything creating a loyalty record touches: the participant and the
/// fresh record.
pub struct InitializeUser {
    /// The participant the record belongs to.
    pub user: Address,
    /// The loyalty record this operation fills in.
    pub user_account: UserAccount,
    /// The marketplace the record belongs to.
    pub marketplace: Marketplace,
    /// Derivation bump of the created record.
    pub bumps: InitializeUserBumps,
}

impl InitializeUser {
    /// Fills the loyalty record in: every counter and the points balance
    /// start at zero.
    pub fn initialize_user(&mut self, bumps: &InitializeUserBumps) -> (r: Result<
        (),
        MarketplaceError,
    >)
        ensures
            r is Ok,
            *final(self) == (InitializeUser {
                user_account: UserAccount {
                    total_bids_placed: 0,
                    total_auctions_participated: 0,
                    total_auctions_won: 0,
                    total_auctions_created: 0,
                    points: 0,
                    bump: bumps.user_account,
                },
                ..*old(self)
            }),
    {
        self.user_account = UserAccount::new(bumps.user_account);
        Ok(())
    }

    /// Builds the created-event for observers; the caller publishes it.
    pub fn emit_user_created(&self) -> (r: UserCreated)
        ensures
            r.user_pubkey == self.user,
            r.label@ == USER_CREATED_LABEL@,
    {
        UserCreated { user_pubkey: self.user, label: USER_CREATED_LABEL.to_owned() }
    }
}

} // verus!
