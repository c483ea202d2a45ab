//! The seven-day linear unlock schedule.
use vstd::prelude::*;

verus! {

/// Length of one vesting step, in seconds.
pub const SECONDS_IN_DAY: i64 = 86400;

/// Number of full days after which the whole principal is unlocked.
pub const FULL_UNLOCK_DAYS: i64 = 7;

/// Percentage of the principal that unlocks per full elapsed day.
pub const DAILY_UNLOCK_PERCENT: u128 = 10;

/// Percentage unlocked after `days` full days: ten per day, all of it from the
/// seventh day on.
pub open spec fn unlocked_percent(days: int) -> int {
    if days >= FULL_UNLOCK_DAYS as int {
        100
    } else {
        days * DAILY_UNLOCK_PERCENT as int
    }
}

/// Amount of `principal` withdrawable at time `now` for a vesting window that
/// started at `anchor`. An anchor of zero or an empty principal means that no
/// vesting is running, and nothing is unlocked.
pub open spec fn unlocked_amount(principal: int, anchor: int, now: int) -> int {
    if anchor == 0 || principal == 0 || now <= anchor {
        0
    } else {
        principal * unlocked_percent((now - anchor) / SECONDS_IN_DAY as int) / 100
    }
}

proof fn lemma_percent_of_bounded(p: int, pct: int)
    requires
        0 <= p,
        0 <= pct <= 100,
    ensures
        0 <= p * pct / 100 <= p,
        p * pct <= p * 100,
{
    assert(0 <= p * pct <= p * 100) by (nonlinear_arith)
        requires
            0 <= p,
            0 <= pct <= 100,
    ;
}

proof fn lemma_percent_of_monotonic(p: int, pct1: int, pct2: int)
    requires
        0 <= p,
        0 <= pct1 <= pct2,
    ensures
        p * pct1 / 100 <= p * pct2 / 100,
{
    assert(p * pct1 <= p * pct2) by (nonlinear_arith)
        requires
            0 <= p,
            0 <= pct1 <= pct2,
    ;
    vstd::arithmetic::div_mod::lemma_div_is_ordered(p * pct1, p * pct2, 100);
}

/// What is unlocked lies between zero and the principal.
pub proof fn lemma_unlocked_at_most_principal(principal: u64, anchor: i64, now: i64)
    ensures
        0 <= unlocked_amount(principal as int, anchor as int, now as int) <= principal,
{
    if !(anchor == 0 || principal == 0 || now <= anchor) {
        let days = (now - anchor) / SECONDS_IN_DAY as int;
        assert(days >= 0);
        lemma_percent_of_bounded(principal as int, unlocked_percent(days));
    }
}

/// The unlock schedule: what is unlocked never shrinks as time goes on, is
/// zero up to the anchor, and is the whole principal from seven full days
/// after a (non-zero) anchor on.
pub proof fn lemma_unlock_schedule(principal: u64, anchor: i64, now: i64, later: i64)
    ensures
        now <= later ==> unlocked_amount(principal as int, anchor as int, now as int)
            <= unlocked_amount(principal as int, anchor as int, later as int),
        now <= anchor ==> unlocked_amount(principal as int, anchor as int, now as int) == 0,
        anchor != 0 && now >= anchor + FULL_UNLOCK_DAYS * SECONDS_IN_DAY ==> unlocked_amount(
            principal as int,
            anchor as int,
            now as int,
        ) == principal,
{
    let p = principal as int;
    lemma_unlocked_at_most_principal(principal, anchor, now);
    lemma_unlocked_at_most_principal(principal, anchor, later);
    if now <= later && !(anchor == 0 || principal == 0 || now <= anchor) {
        let d1 = (now - anchor) / SECONDS_IN_DAY as int;
        let d2 = (later - anchor) / SECONDS_IN_DAY as int;
        vstd::arithmetic::div_mod::lemma_div_is_ordered(
            now - anchor,
            later - anchor,
            SECONDS_IN_DAY as int,
        );
        assert(0 <= d1 <= d2);
        lemma_percent_of_monotonic(p, unlocked_percent(d1), unlocked_percent(d2));
    }
    if anchor != 0 && now >= anchor + FULL_UNLOCK_DAYS * SECONDS_IN_DAY && principal != 0 {
        let d = (now - anchor) / SECONDS_IN_DAY as int;
        vstd::arithmetic::div_mod::lemma_div_is_ordered(
            FULL_UNLOCK_DAYS * SECONDS_IN_DAY,
            now - anchor,
            SECONDS_IN_DAY as int,
        );
        assert(d >= FULL_UNLOCK_DAYS);
        assert(p * 100 / 100 == p);
    }
}

} // verus!
