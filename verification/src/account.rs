//! Caller and account identities.

use vstd::prelude::*;

verus! {

/// A 32-byte identity, as the execution environment hands it to the ledger:
/// a caller's public key, a record's address, or a share unit's identifier.
/// It is held as four 64-bit words so that two identities compare by value
/// both in executable code and in contracts.
#[derive(Clone, Copy, PartialEq, Eq, Structural, Debug, Hash)]
pub struct AccountId {
    pub w0: u64,
    pub w1: u64,
    pub w2: u64,
    pub w3: u64,
}

impl AccountId {
    /// Builds an identity from its four 64-bit words.
    pub fn new(w0: u64, w1: u64, w2: u64, w3: u64) -> (r: AccountId)
        ensures
            r == (AccountId { w0, w1, w2, w3 }),
    {
        AccountId { w0, w1, w2, w3 }
    }
}

} // verus!
