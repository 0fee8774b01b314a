//! Basis-point arithmetic on 128-bit amounts.

use vstd::prelude::*;

use crate::state::RevoraRevenueShare;
use crate::types::{RoundingMode, Trap};

verus! {

/// Basis points in one whole.
pub const BPS_DENOMINATOR: i128 = 10_000;

pub open spec fn in_i128(x: int) -> bool {
    i128::MIN <= x <= i128::MAX
}

/// `x` saturated into the range of `i128`.
pub open spec fn sat_i128(x: int) -> int {
    if x > i128::MAX {
        i128::MAX as int
    } else if x < i128::MIN {
        i128::MIN as int
    } else {
        x
    }
}

/// `x` saturated into the range of `u64`.
pub open spec fn sat_u64(x: int) -> int {
    if x > u64::MAX {
        u64::MAX as int
    } else {
        x
    }
}

/// `x` saturated into the range of `u32`.
pub open spec fn sat_u32(x: int) -> int {
    if x > u32::MAX {
        u32::MAX as int
    } else {
        x
    }
}

/// Integer division rounding toward zero (`b > 0`).
pub open spec fn trunc_div(a: int, b: int) -> int {
    if a >= 0 {
        a / b
    } else {
        -((-a) / b)
    }
}

pub open spec fn min_int(a: int, b: int) -> int {
    if a <= b {
        a
    } else {
        b
    }
}

pub open spec fn max_int(a: int, b: int) -> int {
    if a >= b {
        a
    } else {
        b
    }
}

/// `value * bps / 10000`, rounded toward zero.
pub open spec fn bps_part(value: int, bps: int) -> int {
    trunc_div(value * bps, 10_000)
}

/// The share of `amount` at `bps` basis points under `mode`, as
/// `compute_share` defines it: 0 above 10000 bps; a product out of range
/// counts as 0; the half-up adjustment saturates; the result is clamped
/// between 0 and `amount`.
pub open spec fn share_of(amount: int, bps: int, mode: RoundingMode) -> int {
    if bps > 10_000 {
        0
    } else {
        let raw = if in_i128(amount * bps) {
            amount * bps
        } else {
            0
        };
        let share = match mode {
            RoundingMode::Truncation => trunc_div(raw, 10_000),
            RoundingMode::RoundHalfUp => trunc_div(
                if raw >= 0 {
                    sat_i128(raw + 5_000)
                } else {
                    sat_i128(raw - 5_000)
                },
                10_000,
            ),
        };
        min_int(max_int(share, min_int(0, amount)), max_int(0, amount))
    }
}

pub proof fn lemma_trunc_div_bounds(a: int, b: int)
    requires
        b > 0,
    ensures
        a >= 0 ==> 0 <= trunc_div(a, b) <= a,
        a < 0 ==> a <= trunc_div(a, b) <= 0,
        a >= 0 ==> b * trunc_div(a, b) <= a,
        a < 0 ==> a <= b * trunc_div(a, b),
{
    if a >= 0 {
        vstd::arithmetic::div_mod::lemma_div_pos_is_pos(a, b);
        vstd::arithmetic::div_mod::lemma_div_is_ordered_by_denominator(a, 1, b);
        vstd::arithmetic::div_mod::lemma_fundamental_div_mod(a, b);
        vstd::arithmetic::div_mod::lemma_mod_pos_bound(a, b);
    } else {
        vstd::arithmetic::div_mod::lemma_div_pos_is_pos(-a, b);
        vstd::arithmetic::div_mod::lemma_div_is_ordered_by_denominator(-a, 1, b);
        vstd::arithmetic::div_mod::lemma_fundamental_div_mod(-a, b);
        vstd::arithmetic::div_mod::lemma_mod_pos_bound(-a, b);
        let q = (-a) / b;
        assert(b * q <= -a);
        assert(b * (-q) == -(b * q)) by (nonlinear_arith);
    }
}

/// `value * bps / 10000` rounded toward zero, or `None` where the product
/// leaves the range of `i128`.
pub fn checked_bps_part(value: i128, bps: i128) -> (r: Option<i128>)
    ensures
        r is None <==> !in_i128(value * bps),
        r matches Some(v) ==> v == bps_part(value as int, bps as int),
{
    match value.checked_mul(bps) {
        Some(p) => {
            proof {
                lemma_trunc_div_bounds(p as int, 10_000);
            }
            Some(p / BPS_DENOMINATOR)
        },
        None => None,
    }
}

/// `a + b` saturated into the range of `i128`.
pub fn saturating_add_i128(a: i128, b: i128) -> (r: i128)
    ensures
        r == sat_i128(a + b),
{
    match a.checked_add(b) {
        Some(s) => s,
        None => if b > 0 {
            i128::MAX
        } else {
            i128::MIN
        },
    }
}

/// `a + b` saturated into the range of `u64`.
pub fn saturating_add_u64(a: u64, b: u64) -> (r: u64)
    ensures
        r == sat_u64(a + b),
{
    if a > u64::MAX - b {
        u64::MAX
    } else {
        a + b
    }
}

/// `a + b` saturated into the range of `u32`.
pub fn saturating_add_u32(a: u32, b: u32) -> (r: u32)
    ensures
        r == sat_u32(a + b),
{
    if a > u32::MAX - b {
        u32::MAX
    } else {
        a + b
    }
}

/// For in-range inputs `share_of` is the plain formula: with truncation
/// `amount * bps / 10000` rounded toward zero, with half-up rounding
/// `(amount * bps + 5000) / 10000` for a non-negative amount and its mirror
/// image for a negative one; the clamp to `[min(0, amount), max(0, amount)]`
/// never applies.
pub proof fn lemma_share_formulas(amount: int, bps: int)
    requires
        0 <= bps <= 10_000,
        in_i128(amount),
        in_i128(amount * bps + 5_000),
        in_i128(amount * bps - 5_000),
    ensures
        share_of(amount, bps, RoundingMode::Truncation) == trunc_div(amount * bps, 10_000),
        amount >= 0 ==> share_of(amount, bps, RoundingMode::RoundHalfUp) == (amount * bps
            + 5_000) / 10_000,
        amount < 0 ==> share_of(amount, bps, RoundingMode::RoundHalfUp) == -((5_000 - amount
            * bps) / 10_000),
{
    let raw = amount * bps;
    if amount >= 0 {
        assert(0 <= amount * bps <= amount * 10_000) by (nonlinear_arith)
            requires
                amount >= 0,
                0 <= bps <= 10_000,
        ;
        lemma_trunc_div_bounds(raw, 10_000);
        vstd::arithmetic::div_mod::lemma_div_is_ordered(raw, amount * 10_000, 10_000);
        vstd::arithmetic::div_mod::lemma_div_is_ordered(raw + 5_000, amount * 10_000 + 5_000, 10_000);
        assert((amount * 10_000) / 10_000 == amount);
        vstd::arithmetic::div_mod::lemma_fundamental_div_mod_converse(
            amount * 10_000 + 5_000,
            10_000,
            amount,
            5_000,
        );
        vstd::arithmetic::div_mod::lemma_div_pos_is_pos(raw + 5_000, 10_000);
    } else {
        assert(amount * 10_000 <= amount * bps <= 0) by (nonlinear_arith)
            requires
                amount < 0,
                0 <= bps <= 10_000,
        ;
        lemma_trunc_div_bounds(raw, 10_000);
        let m = -amount;
        vstd::arithmetic::div_mod::lemma_div_is_ordered(-raw, m * 10_000, 10_000);
        vstd::arithmetic::div_mod::lemma_div_is_ordered(5_000 - raw, m * 10_000 + 5_000, 10_000);
        assert((m * 10_000) / 10_000 == m);
        vstd::arithmetic::div_mod::lemma_fundamental_div_mod_converse(
            m * 10_000 + 5_000,
            10_000,
            m,
            5_000,
        );
        assert(m * 10_000 == -(amount * 10_000));
        vstd::arithmetic::div_mod::lemma_div_pos_is_pos(5_000 - raw, 10_000);
        if raw >= 0 {
            assert(raw == 0);
        }
    }
}

impl RevoraRevenueShare {
    /// Compute share of `amount` at `revenue_share_bps` using the given
    /// rounding mode. The result lies between 0 and `amount` inclusive.
    pub fn compute_share(amount: i128, revenue_share_bps: u32, mode: RoundingMode) -> (r: i128)
        ensures
            r == share_of(amount as int, revenue_share_bps as int, mode),
            min_int(0, amount as int) <= r <= max_int(0, amount as int),
    {
        if revenue_share_bps > 10_000 {
            return 0;
        }
        let bps = revenue_share_bps as i128;
        let raw = match amount.checked_mul(bps) {
            Some(p) => p,
            None => 0,
        };
        let share = match mode {
            RoundingMode::Truncation => {
                proof {
                    lemma_trunc_div_bounds(raw as int, 10_000);
                }
                raw / BPS_DENOMINATOR
            },
            RoundingMode::RoundHalfUp => {
                let adjusted: i128 = if raw >= 0 {
                    if raw > i128::MAX - 5_000 {
                        i128::MAX
                    } else {
                        raw + 5_000
                    }
                } else {
                    if raw < i128::MIN + 5_000 {
                        i128::MIN
                    } else {
                        raw - 5_000
                    }
                };
                proof {
                    lemma_trunc_div_bounds(adjusted as int, 10_000);
                }
                adjusted / BPS_DENOMINATOR
            },
        };
        let lo: i128 = if amount < 0 {
            amount
        } else {
            0
        };
        let hi: i128 = if amount > 0 {
            amount
        } else {
            0
        };
        let above = if share < lo {
            lo
        } else {
            share
        };
        if above > hi {
            hi
        } else {
            above
        }
    }

    /// Calculate the platform fee for a given amount: `amount * fee / 10000`,
    /// rounded toward zero. The multiplication aborts on overflow.
    pub fn calculate_platform_fee(&self, amount: i128) -> (r: Result<i128, Trap>)
        ensures
            in_i128(amount * self@.platform_fee_bps) ==> r == Ok::<i128, Trap>(
                bps_part(amount as int, self@.platform_fee_bps as int) as i128,
            ),
            !in_i128(amount * self@.platform_fee_bps) ==> r == Err::<i128, Trap>(
                Trap::ArithmeticOverflow,
            ),
    {
        let fee_bps = self.get_platform_fee() as i128;
        match checked_bps_part(amount, fee_bps) {
            Some(v) => Ok(v),
            None => Err(Trap::ArithmeticOverflow),
        }
    }
}

} // verus!
