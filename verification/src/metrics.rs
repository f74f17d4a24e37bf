//! Derived metrics: percentage computation and aggregation of per-volume
//! and per-interface raw counters.
//!
//! A percentage is represented as an integer number of hundredths of a
//! percent (so `5333` stands for `53.33%`), which keeps every derivation
//! exact and total: a zero denominator yields exactly zero.

use vstd::prelude::*;

verus! {

/// Scale factor between a ratio and its value in hundredths of a percent.
pub const PERCENT_SCALE: u64 = 10000;

/// What `used` out of `total` is, in hundredths of a percent.
/// A zero total yields zero; a quotient past `u64::MAX` saturates.
pub open spec fn percent_hundredths(used: u64, total: u64) -> u64 {
    if total == 0 {
        0u64
    } else {
        let q = (used as int) * (PERCENT_SCALE as int) / (total as int);
        if q > u64::MAX as int {
            u64::MAX
        } else {
            q as u64
        }
    }
}

/// Saturating sum of two counters.
pub open spec fn sat_add_spec(a: u64, b: u64) -> u64 {
    if a + b > u64::MAX {
        u64::MAX
    } else {
        (a + b) as u64
    }
}

/// `a - b`, floored at zero.
pub open spec fn sat_sub_spec(a: u64, b: u64) -> u64 {
    if a < b {
        0u64
    } else {
        (a - b) as u64
    }
}

/// Derives the percentage `used / total * 100`, in hundredths of a percent.
pub fn percent_of(used: u64, total: u64) -> (r: u64)
    ensures
        r == percent_hundredths(used, total),
        total == 0 ==> r == 0,
        used <= total ==> r <= PERCENT_SCALE,
{
    if total == 0 {
        0
    } else {
        proof {
            assert((used as int) * (PERCENT_SCALE as int) <= (u64::MAX as int) * (
            PERCENT_SCALE as int)) by (nonlinear_arith)
                requires
                    used <= u64::MAX,
            ;
            if used <= total {
                assert((used as int) * (PERCENT_SCALE as int) / (total as int) <= (
                PERCENT_SCALE as int)) by (nonlinear_arith)
                    requires
                        0 < total,
                        used <= total,
                ;
            }
        }
        let q: u128 = (used as u128) * (PERCENT_SCALE as u128) / (total as u128);
        if q > u64::MAX as u128 {
            u64::MAX
        } else {
            q as u64
        }
    }
}

/// Saturating addition used when aggregating cumulative counters.
pub fn sat_add(a: u64, b: u64) -> (r: u64)
    ensures
        r == sat_add_spec(a, b),
{
    if a > u64::MAX - b {
        u64::MAX
    } else {
        a + b
    }
}

/// Subtraction floored at zero, used to derive used space from totals.
pub fn sat_sub(a: u64, b: u64) -> (r: u64)
    ensures
        r == sat_sub_spec(a, b),
{
    if a < b {
        0
    } else {
        a - b
    }
}

} // verus!
