//! The ledger's invariants, stated and proved over the transition functions.
//!
//! [`Op`] names one application of any mutating operation with its arguments,
//! and [`step`] gives the record it leaves behind — the same transition the
//! executable operations in [`crate::ops`] are proved to perform. The lemmas
//! below therefore hold of every record the executable ledger can reach.

use vstd::prelude::*;
use crate::account::AccountId;
use crate::errors::CustomError;
use crate::ops::{
    buy_property_spec, buy_shares_spec, deposit_rent_spec, distribute_rent_spec,
    initialize_property_spec, list_property_spec, update_property_spec,
};
use crate::property::Property;

verus! {

/// One application of a mutating operation to an existing record, with the
/// arguments that the resulting state depends on.
#[derive(Clone, Copy, PartialEq, Eq, Structural, Debug)]
pub enum Op {
    /// The owner lists the property at a per-share price.
    List { caller: AccountId, price_per_share_lamports: u64 },
    /// The owner changes the price and/or issues new shares.
    Update { caller: AccountId, new_price_per_share_lamports: Option<u64>, add_shares: Option<u64> },
    /// A buyer purchases shares at the listed price.
    Buy { amount: u64 },
    /// Shares are granted through the unpaid compatibility path.
    BuyShares { amount: u64 },
    /// Rent is deposited into the pool.
    Deposit { amount: u64 },
    /// The owner resets the rent pool.
    Distribute { caller: AccountId },
}

/// The record that applying `op` to `p` leaves behind: the new record when
/// the operation succeeds, and `p` unchanged when it is refused.
pub open spec fn step(p: Property, op: Op) -> Property {
    match op {
        Op::List { caller, price_per_share_lamports } => list_property_spec(
            p,
            caller,
            price_per_share_lamports,
        ).0,
        Op::Update { caller, new_price_per_share_lamports, add_shares } => update_property_spec(
            p,
            caller,
            new_price_per_share_lamports,
            add_shares,
        ).0,
        Op::Buy { amount } => buy_property_spec(p, amount).0,
        Op::BuyShares { amount } => buy_shares_spec(p, amount).0,
        Op::Deposit { amount } => deposit_rent_spec(p, amount).0,
        Op::Distribute { caller } => distribute_rent_spec(p, caller).0,
    }
}

/// The record after a whole sequence of operations, applied in order.
pub open spec fn run(p: Property, ops: Seq<Op>) -> Property
    decreases ops.len(),
{
    if ops.len() == 0 {
        p
    } else {
        run(step(p, ops[0]), ops.drop_first())
    }
}

/// Creation establishes the record's invariant: a freshly initialized
/// property is well-formed, with all of its shares unsold and an empty,
/// unlisted record.
pub proof fn lemma_initialize_wf(
    owner: AccountId,
    share_mint: AccountId,
    bump: u8,
    created_at: i64,
    total_shares: u64,
)
    ensures
        initialize_property_spec(owner, share_mint, bump, created_at, total_shares) matches Ok(p)
            ==> {
            &&& p.wf()
            &&& p.total_shares == total_shares
            &&& p.available_shares == total_shares
            &&& p.rent_pool == 0
            &&& !p.is_listed
        },
{
}

/// Every operation preserves the record's invariant: from a well-formed
/// record, the unsold shares stay at or below the issued shares and a listed
/// record keeps a positive price. Together with [`lemma_initialize_wf`] this
/// shows `0 <= available_shares <= total_shares` in every reachable state.
pub proof fn lemma_step_preserves_wf(p: Property, op: Op)
    requires
        p.wf(),
    ensures
        step(p, op).wf(),
{
}

/// The invariant holds along any whole history: a well-formed record stays
/// well-formed under any sequence of operations.
pub proof fn lemma_run_preserves_wf(p: Property, ops: Seq<Op>)
    requires
        p.wf(),
    ensures
        run(p, ops).wf(),
    decreases ops.len(),
{
    if ops.len() > 0 {
        lemma_step_preserves_wf(p, ops[0]);
        lemma_run_preserves_wf(step(p, ops[0]), ops.drop_first());
    }
}

/// What never moves, and what moves only one way: no operation changes the
/// record's owner, share unit, address discriminator or creation time; the
/// issued total never decreases; and once listed, a property stays listed —
/// no operation in this version clears the flag.
pub proof fn lemma_immutable_and_monotone(p: Property, op: Op)
    ensures
        step(p, op).owner == p.owner,
        step(p, op).share_mint == p.share_mint,
        step(p, op).bump == p.bump,
        step(p, op).created_at == p.created_at,
        step(p, op).total_shares >= p.total_shares,
        p.is_listed ==> step(p, op).is_listed,
{
}

/// The rent pool moves only two ways: a deposit adds its (positive) amount,
/// and a distribution resets the pool to zero. Every other operation — and
/// every refused one — leaves the pool exactly as it was, and no operation
/// ever lowers it except the reset.
pub proof fn lemma_rent_pool_changes(p: Property, op: Op)
    ensures
        !(op is Deposit) && !(op is Distribute) ==> step(p, op).rent_pool == p.rent_pool,
        op matches Op::Deposit { amount } ==> step(p, op).rent_pool == p.rent_pool || step(
            p,
            op,
        ).rent_pool == p.rent_pool + amount,
        op is Deposit ==> step(p, op).rent_pool >= p.rent_pool,
        op matches Op::Distribute { caller } ==> step(p, op).rent_pool == (
        if caller == p.owner {
            0u64
        } else {
            p.rent_pool
        }),
{
}

/// Distributing rent twice in a row is safe but lossy: the first successful
/// reset empties the pool, so the second call is a no-op on an already-zero
/// pool — and whatever value the pool held is gone, not paid out. This
/// records the behaviour; a proportional payout is deliberately out of scope.
pub proof fn lemma_distribute_rent_twice(p: Property, caller: AccountId)
    ensures
        step(step(p, Op::Distribute { caller }), Op::Distribute { caller }) == step(
            p,
            Op::Distribute { caller },
        ),
{
}

/// The exact overflow boundary of issuing new shares: an update that brings
/// the issued total exactly to `u64::MAX` succeeds, and one that would go a
/// single unit beyond is refused with `MathError`, leaving the record
/// unchanged.
pub proof fn lemma_update_overflow_boundary(p: Property, caller: AccountId, add_shares: u64)
    requires
        p.wf(),
        caller == p.owner,
    ensures
        add_shares == u64::MAX - p.total_shares ==> {
            &&& update_property_spec(p, caller, None, Some(add_shares)).1 is Ok
            &&& update_property_spec(p, caller, None, Some(add_shares)).0.total_shares
                == u64::MAX
        },
        add_shares > u64::MAX - p.total_shares ==> {
            &&& update_property_spec(p, caller, None, Some(add_shares)).1 == Err::<
                (),
                CustomError,
            >(CustomError::MathError)
            &&& update_property_spec(p, caller, None, Some(add_shares)).0 == p
        },
{
}

} // verus!
