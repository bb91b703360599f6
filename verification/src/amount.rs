//! Fixed-point conversion between whole token units and native units, and the
//! linear reward that is built on it.

use vstd::prelude::*;

verus! {

/// The scale factor of a token with `decimals` decimal places: ten to that power.
pub open spec fn scale(decimals: nat) -> nat
    decreases decimals,
{
    if decimals == 0 {
        1
    } else {
        10 * scale((decimals - 1) as nat)
    }
}

/// `units` whole tokens in native units.
pub open spec fn native_units(units: nat, decimals: nat) -> nat {
    units * scale(decimals)
}

/// The reward accrued over `elapsed` slots: one whole token per slot.
pub open spec fn reward(elapsed: nat, decimals: nat) -> nat {
    native_units(elapsed, decimals)
}

/// The scale factor is never zero.
pub proof fn scale_positive(decimals: nat)
    ensures
        scale(decimals) >= 1,
    decreases decimals,
{
    if decimals > 0 {
        scale_positive((decimals - 1) as nat);
    }
}

/// More decimal places never give a smaller scale factor.
pub proof fn scale_monotonic(low: nat, high: nat)
    requires
        low <= high,
    ensures
        scale(low) <= scale(high),
    decreases high,
{
    if low < high {
        scale_monotonic(low, (high - 1) as nat);
    }
}

/// The reward grows strictly with elapsed time: a longer stake earns more,
/// and two stakes earn the same only when they lasted equally long.
pub proof fn reward_strictly_increasing(t1: nat, t2: nat, decimals: nat)
    requires
        t1 < t2,
    ensures
        reward(t1, decimals) < reward(t2, decimals),
{
    scale_positive(decimals);
    let s = scale(decimals) as int;
    assert(t1 * s < t2 * s) by (nonlinear_arith)
        requires
            t1 < t2,
            s >= 1,
    ;
}

/// The reward never shrinks as time passes.
pub proof fn reward_monotonic(t1: nat, t2: nat, decimals: nat)
    requires
        t1 <= t2,
    ensures
        reward(t1, decimals) <= reward(t2, decimals),
{
    if t1 < t2 {
        reward_strictly_increasing(t1, t2, decimals);
    }
}

/// No time, no reward.
pub proof fn reward_of_no_time(decimals: nat)
    ensures
        reward(0, decimals) == 0,
{
    assert(0 * scale(decimals) == 0) by (nonlinear_arith);
}

/// Amounts add up under scaling: `a` and `e` whole tokens together are worth
/// the sum of what each is worth.
pub proof fn native_units_additive(a: nat, e: nat, decimals: nat)
    ensures
        native_units(a + e, decimals) == native_units(a, decimals) + native_units(e, decimals),
{
    let s = scale(decimals) as int;
    assert((a + e) * s == a * s + e * s) by (nonlinear_arith);
}

/// Ten to the power `decimals`, or `None` where that does not fit in 64 bits.
pub fn scale_factor(decimals: u8) -> (r: Option<u64>)
    ensures
        match r {
            Some(s) => s == scale(decimals as nat),
            None => scale(decimals as nat) > u64::MAX,
        },
{
    let mut s: u64 = 1;
    let mut i: u8 = 0;
    while i < decimals
        invariant
            i <= decimals,
            s == scale(i as nat),
        decreases decimals - i,
    {
        match s.checked_mul(10) {
            Some(next) => {
                s = next;
            },
            None => {
                proof {
                    scale_monotonic((i + 1) as nat, decimals as nat);
                }
                return None;
            },
        }
        i += 1;
    }
    Some(s)
}

/// `units` whole tokens in native units, or `None` where that does not fit in
/// 64 bits.
pub fn to_native(units: u64, decimals: u8) -> (r: Option<u64>)
    ensures
        match r {
            Some(n) => n == native_units(units as nat, decimals as nat),
            None => units > 0 && native_units(units as nat, decimals as nat) > u64::MAX,
        },
{
    if units == 0 {
        proof {
            reward_of_no_time(decimals as nat);
        }
        return Some(0);
    }
    match scale_factor(decimals) {
        Some(s) => units.checked_mul(s),
        None => {
            proof {
                let s = scale(decimals as nat) as int;
                assert(units * s >= s) by (nonlinear_arith)
                    requires
                        units >= 1,
                        s >= 0,
                ;
            }
            None
        },
    }
}

} // verus!
