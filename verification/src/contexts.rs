//! One module per externally callable operation, each holding the plain
//! state the operation reads and writes and the verified transition it
//! performs on it.

pub mod delist;
pub mod end_listing;
pub mod initialize;
pub mod initialize_user;
pub mod list;
pub mod mint_bid_token;
pub mod place_bid;
pub mod purchase;
pub mod update_marketplace;
