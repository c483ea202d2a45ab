//! The fixed-point reward index: deposits raise it, claims pay out the
//! difference since a holder last caught up.
use vstd::prelude::*;

use crate::error::ProgramError;

verus! {

/// Fixed-point scale of the reward index.
pub const REFLECTION_INDEX_SCALE: u128 = 1_000_000_000_000;

/// Index increase for a deposit of `pool_amount` shared over `total_supply`
/// units, rounded down.
pub open spec fn index_increase(pool_amount: int, total_supply: int) -> int {
    pool_amount * REFLECTION_INDEX_SCALE as int / total_supply
}

/// Reward owed to `principal` for the index having moved from `last_index`
/// to `global_index`, rounded down; zero when the index has not moved.
pub open spec fn pending_reflection(global_index: int, last_index: int, principal: int) -> int {
    if global_index <= last_index {
        0
    } else {
        (global_index - last_index) * principal / REFLECTION_INDEX_SCALE as int
    }
}

/// Computes the index increase for a reward deposit. Fails with
/// `InvalidTotalSupply` exactly when `total_supply` is zero; otherwise the
/// increase always fits.
pub fn calculate_index_increase(sol_amount: u64, total_supply: u64) -> (r: Result<
    u128,
    ProgramError,
>)
    ensures
        total_supply == 0 ==> r == Err::<u128, ProgramError>(ProgramError::InvalidTotalSupply),
        total_supply > 0 ==> r == Ok::<u128, ProgramError>(
            index_increase(sol_amount as int, total_supply as int) as u128,
        ),
        total_supply > 0 ==> 0 <= index_increase(sol_amount as int, total_supply as int)
            <= sol_amount * REFLECTION_INDEX_SCALE,
{
    if total_supply == 0 {
        return Err(ProgramError::InvalidTotalSupply);
    }
    let scaled: u128 = sol_amount as u128 * REFLECTION_INDEX_SCALE;
    proof {
        vstd::arithmetic::div_mod::lemma_div_is_ordered_by_denominator(
            scaled as int,
            1,
            total_supply as int,
        );
        vstd::arithmetic::div_mod::lemma_div_pos_is_pos(scaled as int, total_supply as int);
    }
    Ok(scaled / total_supply as u128)
}

/// Pending reward of a holder of `principal` whose last seen index is
/// `user_last_index`, against the current `global_index`.
///
/// An empty principal has nothing to claim and succeeds with zero. Otherwise
/// the call fails with `NoReflectionsAccumulated` when the index has not moved
/// or the reward rounds down to zero, with `CalculationOverflow` when the
/// reward does not fit in 64 bits, and returns the reward otherwise.
pub fn calculate_pending_reflections(global_index: u128, user_last_index: u128, principal: u64) -> (r:
    Result<u64, ProgramError>)
    ensures
        principal == 0 ==> r == Ok::<u64, ProgramError>(0),
        principal > 0 && pending_reflection(
            global_index as int,
            user_last_index as int,
            principal as int,
        ) == 0 ==> r == Err::<u64, ProgramError>(ProgramError::NoReflectionsAccumulated),
        principal > 0 && pending_reflection(
            global_index as int,
            user_last_index as int,
            principal as int,
        ) > u64::MAX ==> r == Err::<u64, ProgramError>(ProgramError::CalculationOverflow),
        principal > 0 && 0 < pending_reflection(
            global_index as int,
            user_last_index as int,
            principal as int,
        ) <= u64::MAX ==> r == Ok::<u64, ProgramError>(
            pending_reflection(global_index as int, user_last_index as int, principal as int)
                as u64,
        ),
{
    if principal == 0 {
        return Ok(0);
    }
    if global_index <= user_last_index {
        return Err(ProgramError::NoReflectionsAccumulated);
    }
    let index_diff: u128 = global_index - user_last_index;
    let ghost exact: int = index_diff * principal;
    match index_diff.checked_mul(principal as u128) {
        None => {
            proof {
                let s = REFLECTION_INDEX_SCALE as int;
                let q = u64::MAX as int + 1;
                assert(q * s <= exact);
                vstd::arithmetic::div_mod::lemma_div_is_ordered(q * s, exact, s);
                vstd::arithmetic::div_mod::lemma_div_multiples_vanish(q, s);
            }
            Err(ProgramError::CalculationOverflow)
        },
        Some(scaled) => {
            let pending: u128 = scaled / REFLECTION_INDEX_SCALE;
            if pending > u64::MAX as u128 {
                Err(ProgramError::CalculationOverflow)
            } else if pending == 0 {
                Err(ProgramError::NoReflectionsAccumulated)
            } else {
                Ok(pending as u64)
            }
        },
    }
}

/// Sum of the principals of `holders`.
pub open spec fn total_principal(holders: Seq<u64>) -> int
    decreases holders.len(),
{
    if holders.len() == 0 {
        0
    } else {
        total_principal(holders.drop_last()) + holders.last()
    }
}

/// Sum of what each of `holders` is owed when the index moves from `before`
/// to `after`.
pub open spec fn total_payout(holders: Seq<u64>, before: int, after: int) -> int
    decreases holders.len(),
{
    if holders.len() == 0 {
        0
    } else {
        total_payout(holders.drop_last(), before, after) + pending_reflection(
            after,
            before,
            holders.last() as int,
        )
    }
}

proof fn lemma_payout_brackets(holders: Seq<u64>, before: int, increase: int)
    requires
        increase >= 0,
    ensures
        0 <= total_principal(holders),
        0 <= total_payout(holders, before, before + increase),
        total_payout(holders, before, before + increase) * REFLECTION_INDEX_SCALE
            <= increase * total_principal(holders),
        increase * total_principal(holders) + holders.len() <= (total_payout(
            holders,
            before,
            before + increase,
        ) + holders.len()) * REFLECTION_INDEX_SCALE,
    decreases holders.len(),
{
    if holders.len() > 0 {
        let rest = holders.drop_last();
        let p = holders.last() as int;
        let s = REFLECTION_INDEX_SCALE as int;
        lemma_payout_brackets(rest, before, increase);
        let f = total_payout(rest, before, before + increase);
        let t = total_principal(rest);
        let n = rest.len() as int;
        let x = increase * p;
        let q = x / s;
        assert(x >= 0) by (nonlinear_arith)
            requires
                x == increase * p,
                increase >= 0,
                p >= 0,
        ;
        vstd::arithmetic::div_mod::lemma_fundamental_div_mod(x, s);
        vstd::arithmetic::div_mod::lemma_div_pos_is_pos(x, s);
        assert(q == pending_reflection(before + increase, before, p)) by {
            if increase == 0 {
                assert(x == 0);
            }
        }
        assert(q * s <= x <= q * s + s - 1);
        assert(increase * (t + p) == increase * t + x) by (nonlinear_arith)
            requires
                x == increase * p,
        ;
        assert((f + q) * s == f * s + q * s) by (nonlinear_arith);
        assert((f + q + n + 1) * s == (f + n) * s + q * s + s) by (nonlinear_arith);
    }
}

/// Reward conservation for any total principal: when a deposit of
/// `pool_amount` is shared over the holders' total principal, and every
/// holder last saw the index as it was before the deposit, what the holders
/// can claim adds up to at most `pool_amount`, and falls short of it by less
/// than one unit per holder plus the total principal divided by the index
/// scale (the rounding of the index itself).
pub proof fn lemma_reward_conservation_any_supply(index: u128, pool_amount: u64, holders: Seq<u64>)
    requires
        0 < total_principal(holders),
    ensures
        ({
            let t = total_principal(holders);
            let after = index + index_increase(pool_amount as int, t);
            let paid = total_payout(holders, index as int, after);
            &&& paid <= pool_amount
            &&& (pool_amount - paid) * REFLECTION_INDEX_SCALE < holders.len()
                * REFLECTION_INDEX_SCALE + t
        }),
{
    let t = total_principal(holders);
    let s = REFLECTION_INDEX_SCALE as int;
    let scaled = pool_amount * s;
    let increase = index_increase(pool_amount as int, t);
    vstd::arithmetic::div_mod::lemma_fundamental_div_mod(scaled, t);
    vstd::arithmetic::div_mod::lemma_div_pos_is_pos(scaled, t);
    assert(t * increase <= scaled < t * increase + t);
    lemma_payout_brackets(holders, index as int, increase);
    let f = total_payout(holders, index as int, index + increase);
    let n = holders.len() as int;
    assert(increase * t == t * increase) by (nonlinear_arith);
    assert(f <= pool_amount) by (nonlinear_arith)
        requires
            f * s <= scaled,
            scaled == pool_amount * s,
            s > 0,
    ;
    assert((pool_amount - f) * s < n * s + t) by (nonlinear_arith)
        requires
            scaled < increase * t + t,
            increase * t + n <= (f + n) * s,
            scaled == pool_amount * s,
            n >= 0,
    ;
}

/// Reward conservation as a whole-unit bound: while the total principal is
/// at most the index scale, the holders' claims fall short of the deposit by
/// at most one unit per holder.
pub proof fn lemma_reward_conservation(index: u128, pool_amount: u64, holders: Seq<u64>)
    requires
        0 < total_principal(holders) <= REFLECTION_INDEX_SCALE,
    ensures
        ({
            let after = index + index_increase(pool_amount as int, total_principal(holders));
            &&& total_payout(holders, index as int, after) <= pool_amount
            &&& pool_amount <= total_payout(holders, index as int, after) + holders.len()
        }),
{
    lemma_reward_conservation_any_supply(index, pool_amount, holders);
    let t = total_principal(holders);
    let s = REFLECTION_INDEX_SCALE as int;
    let f = total_payout(holders, index as int, index + index_increase(pool_amount as int, t));
    let n = holders.len() as int;
    assert(pool_amount <= f + n) by (nonlinear_arith)
        requires
            (pool_amount - f) * s < n * s + t,
            t <= s,
            s > 0,
    ;
}

} // verus!
