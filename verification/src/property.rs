//! The durable record kept per property.

use vstd::prelude::*;
use crate::account::AccountId;

verus! {

/// One property's ledger record. Created once by
/// [`initialize_property`](crate::ops::initialize_property) and mutated only
/// through the operations of [`crate::ops`]; the execution environment
/// persists it between operations.
#[derive(Clone, Copy, PartialEq, Eq, Structural, Debug)]
pub struct Property {
    /// Identity of the creator; immutable after creation.
    pub owner: AccountId,
    /// Total ownership units ever issued; never decreases.
    pub total_shares: u64,
    /// Unsold units; at most `total_shares`.
    pub available_shares: u64,
    /// Accumulated rent awaiting distribution.
    pub rent_pool: u64,
    /// The share unit (token mint) that represents this property's shares;
    /// set once at creation, immutable.
    pub share_mint: AccountId,
    /// The seed-derived discriminator that re-derives this record's address
    /// and authorizes the ledger to mint its share units; immutable.
    pub bump: u8,
    /// Whether the property currently accepts paid purchases.
    pub is_listed: bool,
    /// Price per share in the ledger's base currency; strictly positive
    /// whenever the property is listed.
    pub share_price_lamports: u64,
    /// Creation timestamp, immutable and informational only.
    pub created_at: i64,
}

impl Property {
    /// The record's internal invariant: the unsold shares never exceed the
    /// issued shares, and a listed property always carries a positive price.
    /// Every reachable record satisfies it: creation establishes it and each
    /// operation preserves it.
    pub open spec fn wf(self) -> bool {
        &&& self.available_shares <= self.total_shares
        &&& self.is_listed ==> self.share_price_lamports > 0
    }
}

} // verus!
