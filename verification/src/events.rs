//! Structured events reported by the operations.
//!
//! Each successful operation that changes the ledger's public surface returns
//! one of these payloads; the execution environment delivers it to its event
//! notifier, tied one-to-one to the committed operation.

use vstd::prelude::*;
use crate::account::AccountId;

verus! {

/// A new property record was created.
#[derive(Clone, Copy, PartialEq, Eq, Structural, Debug)]
pub struct PropertyInitialized {
    /// Address of the new property record.
    pub property: AccountId,
    /// The creator, recorded as the property's owner.
    pub owner: AccountId,
    /// The initial (and so far total) number of shares issued.
    pub total_shares: u64,
}

/// A property was listed for sale at a per-share price.
#[derive(Clone, Copy, PartialEq, Eq, Structural, Debug)]
pub struct PropertyListed {
    /// Address of the property record.
    pub property: AccountId,
    /// The property's owner, who listed it.
    pub owner: AccountId,
    /// The price per share, in the ledger's base currency.
    pub price_per_share_lamports: u64,
}

/// A property's price was changed or new shares were issued.
#[derive(Clone, Copy, PartialEq, Eq, Structural, Debug)]
pub struct PropertyUpdated {
    /// Address of the property record.
    pub property: AccountId,
    /// The property's owner, who made the update.
    pub owner: AccountId,
    /// The price per share after the update.
    pub share_price_lamports: u64,
    /// The total issued shares after the update.
    pub total_shares: u64,
    /// The unsold shares after the update.
    pub available_shares: u64,
}

/// A buyer purchased shares at the listed price.
#[derive(Clone, Copy, PartialEq, Eq, Structural, Debug)]
pub struct PropertyPurchased {
    /// Address of the property record.
    pub property: AccountId,
    /// The purchasing identity, which receives the minted share units.
    pub buyer: AccountId,
    /// How many shares were purchased.
    pub amount: u64,
    /// What the buyer owes the owner: `amount` times the per-share price.
    pub total_cost: u64,
}

} // verus!
