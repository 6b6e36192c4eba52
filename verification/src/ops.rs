//! The ledger's transition operations.
//!
//! Each operation validates its preconditions against the current record,
//! then either mutates the record and returns the event to report, or returns
//! a single [`CustomError`] kind and leaves the record exactly as it was:
//! no partial effect is ever visible. The meaning of each operation is given
//! by an open `spec` function over the record, and the executable function's
//! contract equates what it did to that function; the invariant lemmas in
//! [`crate::laws`] are stated over the same functions.

use vstd::prelude::*;
use crate::account::AccountId;
use crate::errors::CustomError;
use crate::events::{PropertyInitialized, PropertyListed, PropertyPurchased, PropertyUpdated};
use crate::property::Property;

verus! {

/// Forgets a result's success payload, keeping only whether it succeeded and,
/// if not, which error it carried. The transition `spec` functions describe
/// outcomes in this form, since the event payloads carry the record's address,
/// which the state transition itself does not depend on.
pub open spec fn outcome<T>(r: Result<T, CustomError>) -> Result<(), CustomError> {
    match r {
        Ok(_) => Ok(()),
        Err(e) => Err(e),
    }
}

/// What creating a property yields: the freshly initialized record, or
/// `ZeroAmount` when no shares are to be issued.
pub open spec fn initialize_property_spec(
    owner: AccountId,
    share_mint: AccountId,
    bump: u8,
    created_at: i64,
    total_shares: u64,
) -> Result<Property, CustomError> {
    if total_shares == 0 {
        Err(CustomError::ZeroAmount)
    } else {
        Ok(
            (Property {
                owner,
                total_shares,
                available_shares: total_shares,
                rent_pool: 0,
                share_mint,
                bump,
                is_listed: false,
                share_price_lamports: 0,
                created_at,
            }),
        )
    }
}

/// Creates a new property record for fractional ownership.
///
/// The execution environment allocates the record at `property_id`, creates
/// the share unit `share_mint` with the record as sole minting authority, and
/// supplies the address discriminator `bump` and the current time
/// `created_at`; this function decides the record's contents. The creator
/// `owner` receives the property with all `total_shares` shares unsold, an
/// empty rent pool, and no listing.
pub fn initialize_property(
    property_id: AccountId,
    owner: AccountId,
    share_mint: AccountId,
    bump: u8,
    created_at: i64,
    total_shares: u64,
) -> (r: Result<(Property, PropertyInitialized), CustomError>)
    ensures
        r is Ok <==> total_shares > 0,
        total_shares == 0 ==> r == Err::<(Property, PropertyInitialized), CustomError>(
            CustomError::ZeroAmount,
        ),
        r matches Ok((p, ev)) ==> {
            &&& Ok::<Property, CustomError>(p) == initialize_property_spec(
                owner,
                share_mint,
                bump,
                created_at,
                total_shares,
            )
            &&& p.wf()
            &&& ev == (PropertyInitialized { property: property_id, owner, total_shares })
        },
{
    if total_shares == 0 {
        return Err(CustomError::ZeroAmount);
    }
    let property = Property {
        owner,
        total_shares,
        available_shares: total_shares,
        rent_pool: 0,
        share_mint,
        bump,
        is_listed: false,
        share_price_lamports: 0,
        created_at,
    };
    let event = PropertyInitialized { property: property_id, owner, total_shares };
    Ok((property, event))
}

/// What listing does to the record: sets the listing flag and the per-share
/// price, or refuses with `NotOwner` or `PriceTooLow` and changes nothing.
pub open spec fn list_property_spec(p: Property, caller: AccountId, price: u64) -> (Property,
    Result<(), CustomError>) {
    if caller != p.owner {
        (p, Err(CustomError::NotOwner))
    } else if price == 0 {
        (p, Err(CustomError::PriceTooLow))
    } else {
        ((Property { is_listed: true, share_price_lamports: price, ..p }), Ok(()))
    }
}

/// The owner lists the property's shares for sale at a strictly positive
/// per-share price. Only the owner may list, and once listed the property
/// stays listed: no operation clears the flag in this version.
pub fn list_property(
    property: &mut Property,
    property_id: AccountId,
    caller: AccountId,
    price_per_share_lamports: u64,
) -> (r: Result<PropertyListed, CustomError>)
    requires
        old(property).wf(),
    ensures
        *final(property) == list_property_spec(
            *old(property),
            caller,
            price_per_share_lamports,
        ).0,
        outcome(r) == list_property_spec(*old(property), caller, price_per_share_lamports).1,
        final(property).wf(),
        r is Ok <==> caller == old(property).owner && price_per_share_lamports > 0,
        r is Err ==> *final(property) == *old(property),
        r matches Ok(ev) ==> ev == (PropertyListed {
            property: property_id,
            owner: old(property).owner,
            price_per_share_lamports,
        }),
{
    if !(caller == property.owner) {
        return Err(CustomError::NotOwner);
    }
    if price_per_share_lamports == 0 {
        return Err(CustomError::PriceTooLow);
    }
    property.is_listed = true;
    property.share_price_lamports = price_per_share_lamports;
    Ok(
        PropertyListed {
            property: property_id,
            owner: property.owner,
            price_per_share_lamports,
        },
    )
}

/// What an update does to the record: if a new price is supplied it must be
/// strictly positive and replaces the old one; if extra shares are supplied
/// they are added to both the issued and the unsold count, refusing with
/// `MathError` where either sum would overflow. Refusals change nothing.
pub open spec fn update_property_spec(
    p: Property,
    caller: AccountId,
    new_price: Option<u64>,
    add_shares: Option<u64>,
) -> (Property, Result<(), CustomError>) {
    if caller != p.owner {
        (p, Err(CustomError::NotOwner))
    } else if new_price matches Some(np) && np == 0 {
        (p, Err(CustomError::PriceTooLow))
    } else {
        let price = match new_price {
            Some(np) => np,
            None => p.share_price_lamports,
        };
        let extra = match add_shares {
            Some(e) => e,
            None => 0u64,
        };
        if p.total_shares + extra > u64::MAX || p.available_shares + extra > u64::MAX {
            (p, Err(CustomError::MathError))
        } else {
            (
                (Property {
                    share_price_lamports: price,
                    total_shares: (p.total_shares + extra) as u64,
                    available_shares: (p.available_shares + extra) as u64,
                    ..p
                }),
                Ok(()),
            )
        }
    }
}

/// The owner updates the listing price and optionally issues new shares,
/// which increases both the total and the available count by the same
/// overflow-checked amount.
pub fn update_property(
    property: &mut Property,
    property_id: AccountId,
    caller: AccountId,
    new_price_per_share_lamports: Option<u64>,
    add_shares: Option<u64>,
) -> (r: Result<PropertyUpdated, CustomError>)
    requires
        old(property).wf(),
    ensures
        *final(property) == update_property_spec(
            *old(property),
            caller,
            new_price_per_share_lamports,
            add_shares,
        ).0,
        outcome(r) == update_property_spec(
            *old(property),
            caller,
            new_price_per_share_lamports,
            add_shares,
        ).1,
        final(property).wf(),
        r is Err ==> *final(property) == *old(property),
        r matches Ok(ev) ==> ev == (PropertyUpdated {
            property: property_id,
            owner: old(property).owner,
            share_price_lamports: final(property).share_price_lamports,
            total_shares: final(property).total_shares,
            available_shares: final(property).available_shares,
        }),
{
    if !(caller == property.owner) {
        return Err(CustomError::NotOwner);
    }
    let mut price: u64 = property.share_price_lamports;
    if let Some(np) = new_price_per_share_lamports {
        if np == 0 {
            return Err(CustomError::PriceTooLow);
        }
        price = np;
    }
    let mut total: u64 = property.total_shares;
    let mut available: u64 = property.available_shares;
    if let Some(extra) = add_shares {
        if extra > 0 {
            total = match property.total_shares.checked_add(extra) {
                Some(t) => t,
                None => {
                    return Err(CustomError::MathError);
                },
            };
            available = match property.available_shares.checked_add(extra) {
                Some(a) => a,
                None => {
                    return Err(CustomError::MathError);
                },
            };
        }
    }
    property.share_price_lamports = price;
    property.total_shares = total;
    property.available_shares = available;
    Ok(
        PropertyUpdated {
            property: property_id,
            owner: property.owner,
            share_price_lamports: price,
            total_shares: total,
            available_shares: available,
        },
    )
}

/// What a paid purchase does to the record: `amount` must be positive, the
/// property listed, the amount covered by the unsold shares, the price
/// positive, and the total cost `amount * price` representable; then the
/// unsold count drops by `amount`. Refusals change nothing.
pub open spec fn buy_property_spec(p: Property, amount: u64) -> (Property, Result<
    (),
    CustomError,
>) {
    if amount == 0 {
        (p, Err(CustomError::ZeroAmount))
    } else if !p.is_listed {
        (p, Err(CustomError::NotListed))
    } else if amount > p.available_shares {
        (p, Err(CustomError::NotEnoughShares))
    } else if p.share_price_lamports == 0 {
        (p, Err(CustomError::PriceTooLow))
    } else if amount * p.share_price_lamports > u64::MAX {
        (p, Err(CustomError::MathError))
    } else {
        ((Property { available_shares: (p.available_shares - amount) as u64, ..p }), Ok(()))
    }
}

/// A buyer purchases `amount` shares at the listed price.
///
/// On success the unsold count drops by `amount` and the returned event
/// instructs the execution environment to transfer `total_cost` in base
/// currency from the buyer to the owner and to mint `amount` share units to
/// the buyer, authorized by the record's discriminator — all within the same
/// transaction as this record change.
pub fn buy_property(
    property: &mut Property,
    property_id: AccountId,
    buyer: AccountId,
    amount: u64,
) -> (r: Result<PropertyPurchased, CustomError>)
    requires
        old(property).wf(),
    ensures
        *final(property) == buy_property_spec(*old(property), amount).0,
        outcome(r) == buy_property_spec(*old(property), amount).1,
        final(property).wf(),
        r is Err ==> *final(property) == *old(property),
        r is Ok <==> {
            &&& amount > 0
            &&& old(property).is_listed
            &&& amount <= old(property).available_shares
            &&& amount * old(property).share_price_lamports <= u64::MAX
        },
        r matches Ok(ev) ==> ev == (PropertyPurchased {
            property: property_id,
            buyer,
            amount,
            total_cost: (amount * old(property).share_price_lamports) as u64,
        }),
{
    if amount == 0 {
        return Err(CustomError::ZeroAmount);
    }
    if !property.is_listed {
        return Err(CustomError::NotListed);
    }
    if amount > property.available_shares {
        return Err(CustomError::NotEnoughShares);
    }
    if property.share_price_lamports == 0 {
        return Err(CustomError::PriceTooLow);
    }
    let total_cost: u64 = match amount.checked_mul(property.share_price_lamports) {
        Some(c) => c,
        None => {
            return Err(CustomError::MathError);
        },
    };
    property.available_shares = property.available_shares - amount;
    Ok(PropertyPurchased { property: property_id, buyer, amount, total_cost })
}

/// What the unpaid share grant does to the record: `amount` must be positive
/// and covered by the unsold shares; then the unsold count drops by `amount`.
/// Neither the listing flag nor the price is consulted.
pub open spec fn buy_shares_spec(p: Property, amount: u64) -> (Property, Result<
    (),
    CustomError,
>) {
    if amount == 0 {
        (p, Err(CustomError::ZeroAmount))
    } else if amount > p.available_shares {
        (p, Err(CustomError::NotEnoughShares))
    } else {
        ((Property { available_shares: (p.available_shares - amount) as u64, ..p }), Ok(()))
    }
}

/// Grants `amount` shares without any payment step, kept for compatibility
/// with the ledger's earlier behaviour.
///
/// This path bypasses payment entirely: it neither requires the property to
/// be listed nor charges the caller. It must be treated as a privileged,
/// administrative operation, not offered on equal footing with
/// [`buy_property`]. On success the execution environment mints `amount`
/// share units to the buyer it authenticated, within the same transaction.
pub fn buy_shares(property: &mut Property, amount: u64) -> (r: Result<(), CustomError>)
    requires
        old(property).wf(),
    ensures
        *final(property) == buy_shares_spec(*old(property), amount).0,
        r == buy_shares_spec(*old(property), amount).1,
        final(property).wf(),
        r is Err ==> *final(property) == *old(property),
        r is Ok <==> amount > 0 && amount <= old(property).available_shares,
{
    if amount == 0 {
        return Err(CustomError::ZeroAmount);
    }
    if amount > property.available_shares {
        return Err(CustomError::NotEnoughShares);
    }
    property.available_shares = property.available_shares - amount;
    Ok(())
}

/// What a rent deposit does to the record: a positive `amount` is added to
/// the rent pool with an overflow check; nothing else changes.
pub open spec fn deposit_rent_spec(p: Property, amount: u64) -> (Property, Result<
    (),
    CustomError,
>) {
    if amount == 0 {
        (p, Err(CustomError::ZeroAmount))
    } else if p.rent_pool + amount > u64::MAX {
        (p, Err(CustomError::MathError))
    } else {
        ((Property { rent_pool: (p.rent_pool + amount) as u64, ..p }), Ok(()))
    }
}

/// Deposits `amount` into the property's rent pool. Any caller may deposit:
/// the ledger deliberately places no ownership check here.
pub fn deposit_rent(property: &mut Property, amount: u64) -> (r: Result<(), CustomError>)
    requires
        old(property).wf(),
    ensures
        *final(property) == deposit_rent_spec(*old(property), amount).0,
        r == deposit_rent_spec(*old(property), amount).1,
        final(property).wf(),
        r is Err ==> *final(property) == *old(property),
        r is Ok <==> amount > 0 && old(property).rent_pool + amount <= u64::MAX,
        r is Ok ==> final(property).rent_pool == old(property).rent_pool + amount,
{
    if amount == 0 {
        return Err(CustomError::ZeroAmount);
    }
    let pool: u64 = match property.rent_pool.checked_add(amount) {
        Some(p) => p,
        None => {
            return Err(CustomError::MathError);
        },
    };
    property.rent_pool = pool;
    Ok(())
}

/// What a distribution does to the record: the owner resets the rent pool to
/// zero; any other caller is refused and nothing changes.
pub open spec fn distribute_rent_spec(p: Property, caller: AccountId) -> (Property, Result<
    (),
    CustomError,
>) {
    if caller != p.owner {
        (p, Err(CustomError::NotOwner))
    } else {
        ((Property { rent_pool: 0, ..p }), Ok(()))
    }
}

/// Resets the rent pool to zero.
///
/// This is a deliberate placeholder: no payout to share holders is computed
/// or transferred in this version, so whatever the pool held is simply
/// cleared. A future proportional distribution would replace this reset.
pub fn distribute_rent(property: &mut Property, caller: AccountId) -> (r: Result<
    (),
    CustomError,
>)
    requires
        old(property).wf(),
    ensures
        *final(property) == distribute_rent_spec(*old(property), caller).0,
        r == distribute_rent_spec(*old(property), caller).1,
        final(property).wf(),
        r is Err ==> *final(property) == *old(property),
        r is Ok <==> caller == old(property).owner,
        r is Ok ==> final(property).rent_pool == 0,
{
    if !(caller == property.owner) {
        return Err(CustomError::NotOwner);
    }
    property.rent_pool = 0;
    Ok(())
}

} // verus!
