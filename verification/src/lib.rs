//! Transition logic for a fractional real-estate ownership ledger.
//!
//! One [`Property`](property::Property) record per property tracks total and
//! available ownership shares, an accumulating rent pool, a per-share price and
//! a listing flag. The record is mutated only through the operations in
//! [`ops`], each of which validates its preconditions, mutates the record
//! atomically (no change is visible on failure) and reports a structured
//! event. The surrounding execution environment is expected to supply caller
//! authentication, durable storage for the records, the currency transfer on a
//! purchase and the minting of share units; this crate holds the decisions
//! and the accounting, which is the part that is verified.

pub mod account;
pub mod errors;
pub mod events;
pub mod laws;
pub mod layout;
pub mod ops;
pub mod property;

pub use account::AccountId;
pub use errors::CustomError;
pub use events::{PropertyInitialized, PropertyListed, PropertyPurchased, PropertyUpdated};
pub use laws::Op;
pub use layout::{property_from_bytes, property_to_bytes, PROPERTY_LEN};
pub use ops::{
    buy_property, buy_shares, deposit_rent, distribute_rent, initialize_property, list_property,
    update_property,
};
pub use property::Property;
