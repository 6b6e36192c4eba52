use propfi::{
    buy_property, buy_shares, deposit_rent, distribute_rent, initialize_property, list_property,
    update_property, AccountId, CustomError, Property,
};

fn ids() -> (AccountId, AccountId, AccountId, AccountId) {
    (
        AccountId::new(1, 2, 3, 4),
        AccountId::new(5, 6, 7, 8),
        AccountId::new(9, 10, 11, 12),
        AccountId::new(13, 14, 15, 16),
    )
}

fn fresh_property(total_shares: u64) -> Property {
    let (owner, _, pid, mint) = ids();
    let (p, _) = initialize_property(pid, owner, mint, 254, 1_700_000_000, total_shares)
        .expect("creation with positive shares succeeds");
    p
}

#[test]
fn initialize_sets_every_field() {
    let (owner, _, pid, mint) = ids();
    let (p, ev) = initialize_property(pid, owner, mint, 254, 1_700_000_000, 100).unwrap();
    assert_eq!(p.owner, owner);
    assert_eq!(p.total_shares, 100);
    assert_eq!(p.available_shares, 100);
    assert_eq!(p.rent_pool, 0);
    assert_eq!(p.share_mint, mint);
    assert_eq!(p.bump, 254);
    assert!(!p.is_listed);
    assert_eq!(p.share_price_lamports, 0);
    assert_eq!(p.created_at, 1_700_000_000);
    assert_eq!(ev.property, pid);
    assert_eq!(ev.owner, owner);
    assert_eq!(ev.total_shares, 100);
}

#[test]
fn initialize_with_zero_shares_fails() {
    let (owner, _, pid, mint) = ids();
    let r = initialize_property(pid, owner, mint, 254, 0, 0);
    assert_eq!(r.unwrap_err(), CustomError::ZeroAmount);
}

#[test]
fn list_then_buy_scenario() {
    let (owner, buyer, pid, _) = ids();
    let mut p = fresh_property(100);
    assert_eq!(p.total_shares, 100);
    assert_eq!(p.available_shares, 100);

    let ev = list_property(&mut p, pid, owner, 50).unwrap();
    assert!(p.is_listed);
    assert_eq!(p.share_price_lamports, 50);
    assert_eq!(ev.property, pid);
    assert_eq!(ev.owner, owner);
    assert_eq!(ev.price_per_share_lamports, 50);

    let ev = buy_property(&mut p, pid, buyer, 10).unwrap();
    assert_eq!(p.available_shares, 90);
    assert_eq!(ev.property, pid);
    assert_eq!(ev.buyer, buyer);
    assert_eq!(ev.amount, 10);
    // 10 shares at 50 lamports each: the environment moves 500 to the owner.
    assert_eq!(ev.total_cost, 500);
}

#[test]
fn list_by_non_owner_fails() {
    let (_, stranger, pid, _) = ids();
    let mut p = fresh_property(100);
    let before = p;
    let r = list_property(&mut p, pid, stranger, 50);
    assert_eq!(r.unwrap_err(), CustomError::NotOwner);
    assert_eq!(p, before);
}

#[test]
fn list_with_zero_price_fails() {
    let (owner, _, pid, _) = ids();
    let mut p = fresh_property(100);
    let before = p;
    let r = list_property(&mut p, pid, owner, 0);
    assert_eq!(r.unwrap_err(), CustomError::PriceTooLow);
    assert_eq!(p, before);
}

#[test]
fn buy_unlisted_fails_not_listed() {
    let (_, buyer, pid, _) = ids();
    let mut p = fresh_property(100);
    let before = p;
    let r = buy_property(&mut p, pid, buyer, 10);
    assert_eq!(r.unwrap_err(), CustomError::NotListed);
    assert_eq!(p.available_shares, 100);
    assert_eq!(p, before);
}

#[test]
fn buy_zero_amount_fails() {
    let (owner, buyer, pid, _) = ids();
    let mut p = fresh_property(100);
    list_property(&mut p, pid, owner, 50).unwrap();
    let before = p;
    let r = buy_property(&mut p, pid, buyer, 0);
    assert_eq!(r.unwrap_err(), CustomError::ZeroAmount);
    assert_eq!(p, before);
}

#[test]
fn buy_more_than_available_fails() {
    let (owner, buyer, pid, _) = ids();
    let mut p = fresh_property(100);
    list_property(&mut p, pid, owner, 50).unwrap();
    let before = p;
    let r = buy_property(&mut p, pid, buyer, 101);
    assert_eq!(r.unwrap_err(), CustomError::NotEnoughShares);
    assert_eq!(p, before);
}

#[test]
fn buy_with_overflowing_cost_fails() {
    let (owner, buyer, pid, _) = ids();
    let mut p = fresh_property(100);
    list_property(&mut p, pid, owner, u64::MAX).unwrap();
    let before = p;
    // 2 shares at u64::MAX lamports each cannot be priced in u64.
    let r = buy_property(&mut p, pid, buyer, 2);
    assert_eq!(r.unwrap_err(), CustomError::MathError);
    assert_eq!(p, before);
    // A single share at that price is still representable.
    let ev = buy_property(&mut p, pid, buyer, 1).unwrap();
    assert_eq!(ev.total_cost, u64::MAX);
    assert_eq!(p.available_shares, 99);
}

#[test]
fn buy_shares_without_payment() {
    let mut p = fresh_property(100);
    // The unpaid path ignores the listing flag and the price entirely.
    assert!(!p.is_listed);
    buy_shares(&mut p, 30).unwrap();
    assert_eq!(p.available_shares, 70);
    assert_eq!(p.total_shares, 100);
}

#[test]
fn buy_shares_beyond_available_fails() {
    let mut p = fresh_property(100);
    let before = p;
    let r = buy_shares(&mut p, 150);
    assert_eq!(r.unwrap_err(), CustomError::NotEnoughShares);
    assert_eq!(p.available_shares, 100);
    assert_eq!(p, before);
}

#[test]
fn buy_shares_zero_fails() {
    let mut p = fresh_property(100);
    let r = buy_shares(&mut p, 0);
    assert_eq!(r.unwrap_err(), CustomError::ZeroAmount);
}

#[test]
fn update_price_only() {
    let (owner, _, pid, _) = ids();
    let mut p = fresh_property(100);
    let ev = update_property(&mut p, pid, owner, Some(75), None).unwrap();
    assert_eq!(p.share_price_lamports, 75);
    assert_eq!(p.total_shares, 100);
    assert_eq!(p.available_shares, 100);
    assert_eq!(ev.share_price_lamports, 75);
    assert_eq!(ev.total_shares, 100);
    assert_eq!(ev.available_shares, 100);
    assert_eq!(ev.property, pid);
    assert_eq!(ev.owner, owner);
}

#[test]
fn update_adds_shares_to_both_counts() {
    let (owner, buyer, pid, _) = ids();
    let mut p = fresh_property(100);
    list_property(&mut p, pid, owner, 50).unwrap();
    buy_property(&mut p, pid, buyer, 40).unwrap();
    assert_eq!(p.available_shares, 60);
    let ev = update_property(&mut p, pid, owner, None, Some(25)).unwrap();
    assert_eq!(p.total_shares, 125);
    assert_eq!(p.available_shares, 85);
    assert_eq!(p.share_price_lamports, 50);
    assert_eq!(ev.total_shares, 125);
    assert_eq!(ev.available_shares, 85);
}

#[test]
fn update_with_nothing_changes_nothing() {
    let (owner, _, pid, _) = ids();
    let mut p = fresh_property(100);
    let before = p;
    update_property(&mut p, pid, owner, None, None).unwrap();
    assert_eq!(p, before);
}

#[test]
fn update_by_non_owner_fails() {
    let (_, stranger, pid, _) = ids();
    let mut p = fresh_property(100);
    let before = p;
    let r = update_property(&mut p, pid, stranger, Some(75), Some(25));
    assert_eq!(r.unwrap_err(), CustomError::NotOwner);
    assert_eq!(p, before);
}

#[test]
fn update_with_zero_price_fails() {
    let (owner, _, pid, _) = ids();
    let mut p = fresh_property(100);
    let before = p;
    let r = update_property(&mut p, pid, owner, Some(0), Some(25));
    assert_eq!(r.unwrap_err(), CustomError::PriceTooLow);
    assert_eq!(p, before);
}

#[test]
fn update_overflow_boundary() {
    let (owner, _, pid, _) = ids();

    // One unit past the representable total is refused and changes nothing.
    let mut p = fresh_property(100);
    let before = p;
    let r = update_property(&mut p, pid, owner, None, Some(u64::MAX - 100 + 1));
    assert_eq!(r.unwrap_err(), CustomError::MathError);
    assert_eq!(p, before);

    // Landing exactly on u64::MAX succeeds.
    let mut p = fresh_property(100);
    update_property(&mut p, pid, owner, None, Some(u64::MAX - 100)).unwrap();
    assert_eq!(p.total_shares, u64::MAX);
    assert_eq!(p.available_shares, u64::MAX);
}

#[test]
fn update_overflow_on_available_alone() {
    let (owner, buyer, pid, _) = ids();
    // Sell some shares first so that available < total; available can then
    // never overflow before total does, and the addition still succeeds.
    let mut p = fresh_property(100);
    list_property(&mut p, pid, owner, 50).unwrap();
    buy_property(&mut p, pid, buyer, 40).unwrap();
    update_property(&mut p, pid, owner, None, Some(u64::MAX - 100)).unwrap();
    assert_eq!(p.total_shares, u64::MAX);
    assert_eq!(p.available_shares, u64::MAX - 40);
}

#[test]
fn rent_scenario() {
    let (owner, buyer, pid, _) = ids();
    let mut p = fresh_property(100);

    // Anyone may deposit; the pool accumulates.
    deposit_rent(&mut p, 1000).unwrap();
    deposit_rent(&mut p, 500).unwrap();
    assert_eq!(p.rent_pool, 1500);

    // Only the owner may distribute; the pool resets to zero.
    distribute_rent(&mut p, owner).unwrap();
    assert_eq!(p.rent_pool, 0);

    let r = distribute_rent(&mut p, buyer);
    assert_eq!(r.unwrap_err(), CustomError::NotOwner);
}

#[test]
fn deposit_zero_fails() {
    let mut p = fresh_property(100);
    let r = deposit_rent(&mut p, 0);
    assert_eq!(r.unwrap_err(), CustomError::ZeroAmount);
    assert_eq!(p.rent_pool, 0);
}

#[test]
fn deposit_overflow_fails() {
    let mut p = fresh_property(100);
    deposit_rent(&mut p, u64::MAX).unwrap();
    let before = p;
    let r = deposit_rent(&mut p, 1);
    assert_eq!(r.unwrap_err(), CustomError::MathError);
    assert_eq!(p, before);
}

#[test]
fn distribute_twice_is_safe_but_lossy() {
    let (owner, _, _, _) = ids();
    let mut p = fresh_property(100);
    deposit_rent(&mut p, 1234).unwrap();
    distribute_rent(&mut p, owner).unwrap();
    let after_first = p;
    // The second reset is a no-op on an already-empty pool; the 1234 units
    // the pool held are gone, not paid out.
    distribute_rent(&mut p, owner).unwrap();
    assert_eq!(p, after_first);
    assert_eq!(p.rent_pool, 0);
}

#[test]
fn error_messages() {
    assert_eq!(CustomError::NotEnoughShares.message(), "Not enough shares available");
    assert_eq!(CustomError::MathError.message(), "Math error occurred");
    assert_eq!(CustomError::NotOwner.message(), "You are not the property owner");
    assert_eq!(CustomError::NotListed.message(), "Property is not listed for sale");
    assert_eq!(CustomError::PriceTooLow.message(), "Price must be greater than zero");
    assert_eq!(CustomError::ZeroAmount.message(), "Amount must be greater than zero");
}
