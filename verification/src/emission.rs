//! The emission curve: how much of the pool is unlocked after an elapsed time,
//! and how much of that is newly due.

use vstd::prelude::*;
use vstd::arithmetic::div_mod::lemma_div_is_ordered_by_denominator;
use vstd::arithmetic::div_mod::lemma_div_pos_is_pos;
use vstd::arithmetic::div_mod::lemma_div_by_multiple;
use vstd::arithmetic::div_mod::lemma_div_denominator;
use vstd::arithmetic::div_mod::lemma_div_non_zero;
use crate::types::EmissionParams;

verus! {

/// Cumulative emission after `elapsed` time units on a curve with the given
/// pool and half-life: `pool - floor(pool * half_life / (half_life + elapsed))`.
pub open spec fn cumulative(pool: int, half_life: int, elapsed: int) -> int {
    pool - (pool * half_life) / (half_life + elapsed)
}

/// Cumulative emission of the standard schedule at clock value `target`, for a
/// curve that started at `origin`. Nothing is unlocked at or before `origin`.
pub open spec fn unlocked(origin: u32, target: u32) -> int {
    if target <= origin {
        0
    } else {
        cumulative(
            EmissionParams::spec_default().spec_pool(),
            EmissionParams::spec_default().half_life as int,
            target - origin,
        )
    }
}

/// The amount newly due at `target` when `realized` has been paid out already:
/// what the curve has unlocked beyond `realized`, and never less than zero.
pub open spec fn spec_delta(origin: u32, target: u32, realized: int) -> int {
    if target <= origin {
        0
    } else if unlocked(origin, target) - realized <= 0 {
        0
    } else {
        unlocked(origin, target) - realized
    }
}

/// On any curve the cumulative emission lies between zero and the pool.
pub proof fn lemma_cumulative_bounds(pool: int, half_life: int, elapsed: int)
    requires
        0 <= pool,
        0 < half_life,
        0 <= elapsed,
    ensures
        0 <= cumulative(pool, half_life, elapsed) <= pool,
{
    let x = pool * half_life;
    assert(0 <= x) by (nonlinear_arith)
        requires
            0 <= pool,
            0 < half_life,
            x == pool * half_life,
    ;
    lemma_div_is_ordered_by_denominator(x, half_life, half_life + elapsed);
    lemma_div_by_multiple(pool, half_life);
    lemma_div_pos_is_pos(x, half_life + elapsed);
}

/// On any curve the cumulative emission never decreases as time passes.
pub proof fn lemma_cumulative_monotone(pool: int, half_life: int, earlier: int, later: int)
    requires
        0 <= pool,
        0 < half_life,
        0 <= earlier <= later,
    ensures
        cumulative(pool, half_life, earlier) <= cumulative(pool, half_life, later),
{
    let x = pool * half_life;
    assert(0 <= x) by (nonlinear_arith)
        requires
            0 <= pool,
            0 < half_life,
            x == pool * half_life,
    ;
    lemma_div_is_ordered_by_denominator(x, half_life + earlier, half_life + later);
}

/// A curve stays strictly below its pool for as long as the elapsed time has
/// not outgrown `pool * half_life`.
pub proof fn lemma_cumulative_below_pool(pool: int, half_life: int, elapsed: int)
    requires
        0 < half_life,
        0 <= elapsed,
        half_life + elapsed <= pool * half_life,
    ensures
        cumulative(pool, half_life, elapsed) < pool,
{
    lemma_div_non_zero(pool * half_life, half_life + elapsed);
}

/// After one half-life a curve has unlocked half of its pool, the odd unit
/// included.
pub proof fn lemma_cumulative_at_half_life(pool: int, half_life: int)
    requires
        0 <= pool,
        0 < half_life,
    ensures
        cumulative(pool, half_life, half_life) == pool - pool / 2,
{
    let x = pool * half_life;
    assert(0 <= x) by (nonlinear_arith)
        requires
            0 <= pool,
            0 < half_life,
            x == pool * half_life,
    ;
    lemma_div_denominator(x, half_life, 2);
    lemma_div_by_multiple(pool, half_life);
    assert(half_life * 2 == half_life + half_life);
}

/// The standard schedule has unlocked a part of its pool, never all of it, at
/// every clock value.
pub proof fn lemma_unlocked_bounds(origin: u32, target: u32)
    ensures
        0 <= unlocked(origin, target) < EmissionParams::spec_default().spec_pool(),
{
    if target > origin {
        let pool = EmissionParams::spec_default().spec_pool();
        let half_life = EmissionParams::spec_default().half_life as int;
        lemma_cumulative_bounds(pool, half_life, target - origin);
        lemma_cumulative_below_pool(pool, half_life, target - origin);
    }
}

/// What the standard schedule has unlocked never decreases as the clock
/// advances.
pub proof fn lemma_unlocked_monotone(origin: u32, earlier: u32, later: u32)
    requires
        earlier <= later,
    ensures
        unlocked(origin, earlier) <= unlocked(origin, later),
{
    lemma_unlocked_bounds(origin, later);
    if earlier > origin {
        let pool = EmissionParams::spec_default().spec_pool();
        let half_life = EmissionParams::spec_default().half_life as int;
        lemma_cumulative_monotone(pool, half_life, earlier - origin, later - origin);
    }
}

/// With nothing realized, the amount due is what the curve has unlocked.
pub proof fn lemma_delta_from_zero(origin: u32, target: u32)
    ensures
        spec_delta(origin, target, 0) == unlocked(origin, target),
{
    lemma_unlocked_bounds(origin, target);
}

/// The curve never runs backward: at or before its origin nothing is due,
/// whatever has been realized.
pub proof fn delta_clamps(origin: u32, target: u32, realized: int)
    requires
        target <= origin,
    ensures
        spec_delta(origin, target, realized) == 0,
{
}

/// Starting from nothing realized, a later clock value is never due less than
/// an earlier one.
pub proof fn delta_monotone(origin: u32, earlier: u32, later: u32)
    requires
        earlier <= later,
    ensures
        spec_delta(origin, earlier, 0) <= spec_delta(origin, later, 0),
{
    lemma_delta_from_zero(origin, earlier);
    lemma_delta_from_zero(origin, later);
    lemma_unlocked_monotone(origin, earlier, later);
}

/// Paying in two steps pays the same as paying once: after what was due at the
/// earlier clock value has been realized, the later one is due exactly the
/// difference.
pub proof fn delta_additive(origin: u32, earlier: u32, later: u32)
    requires
        earlier <= later,
    ensures
        spec_delta(origin, later, spec_delta(origin, earlier, 0)) == spec_delta(origin, later, 0)
            - spec_delta(origin, earlier, 0),
{
    lemma_delta_from_zero(origin, earlier);
    lemma_delta_from_zero(origin, later);
    lemma_unlocked_monotone(origin, earlier, later);
}

/// The pool is an asymptote: what is due from nothing realized stays strictly
/// below it at every clock value.
pub proof fn delta_below_pool(origin: u32, target: u32)
    ensures
        spec_delta(origin, target, 0) < EmissionParams::spec_default().spec_pool(),
{
    lemma_delta_from_zero(origin, target);
    lemma_unlocked_bounds(origin, target);
}

/// Once the amount due has been realized, nothing more is due at the same
/// clock value.
pub proof fn delta_settles(origin: u32, target: u32, realized: int)
    ensures
        spec_delta(origin, target, realized + spec_delta(origin, target, realized)) == 0,
{
}

/// Curve: the amount due at `target` beyond what has been realized.
pub fn delta(origin: u32, target: u32, realized: i128) -> (amount: i128)
    requires
        target > origin ==> realized >= 0,
    ensures
        amount == spec_delta(origin, target, realized as int),
        0 <= amount,
{
    if target <= origin {  // Never emit backward.
        return 0;
    }
    let params = EmissionParams::default();
    let pool: i128 = params.pool();
    let elapsed: i128 = (target - origin) as i128;
    proof {
        lemma_cumulative_bounds(pool as int, params.half_life as int, elapsed as int);
    }
    let delta: i128 = (pool - ((pool * params.half_life) / (params.half_life + elapsed)))
        - realized;
    if delta <= 0 {
        return 0;
    }
    delta
}

} // verus!
