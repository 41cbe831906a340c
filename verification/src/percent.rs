use vstd::prelude::*;

verus! {

use vstd::arithmetic::div_mod::{lemma_div_pos_is_pos, lemma_multiply_divide_lt};

/// Percentages are carried as integer hundredths of a percent, so a value
/// rounded to two decimal places is represented exactly: 33.33% is 3333.
/// `pct_hundredths(v, t)` is `(v / t) * 100`, rounded half-up to the nearest
/// hundredth of a percent; a zero (or negative) total yields 0 by convention,
/// so no query ever divides by zero.
pub open spec fn pct_hundredths(value: int, total: int) -> int {
    if total <= 0 {
        0
    } else {
        (value * 10000 + total / 2) / total
    }
}

/// `pct_hundredths`, clamped into the range of a `u64` so that garbage
/// readings (a value vastly larger than its total) still produce a record.
pub open spec fn pct_clamped(value: int, total: int) -> int {
    if pct_hundredths(value, total) > u64::MAX {
        u64::MAX as int
    } else {
        pct_hundredths(value, total)
    }
}

/// Shared numeric policy for memory, swap, disk and per-core records:
/// the used-to-total ratio as a percentage in hundredths, rounded half-up
/// to two decimal places; 0 when the total is 0.
pub fn percentage(value: u64, total: u64) -> (r: u64)
    ensures
        r == pct_clamped(value as int, total as int),
        total == 0 ==> r == 0,
        value <= total ==> r <= 10000,
{
    if total == 0 {
        return 0;
    }
    let num: u128 = (value as u128) * 10000 + (total as u128) / 2;
    let q: u128 = num / (total as u128);
    proof {
        lemma_div_pos_is_pos(num as int, total as int);
        if value <= total {
            assert(num < (total as int) * 10001) by (nonlinear_arith)
                requires
                    num == (value as int) * 10000 + (total as int) / 2,
                    0 <= value <= total,
                    total >= 1,
            ;
            lemma_multiply_divide_lt(num as int, total as int, 10001);
        }
    }
    if q > u64::MAX as u128 {
        u64::MAX
    } else {
        q as u64
    }
}

/// Integer division rounded half-up to the nearest integer; used to turn a
/// summed per-core usage in ten-thousandths of a percent into a whole-machine
/// figure in hundredths, dividing by 100 times the core count in one step.
pub open spec fn div_round_half_up(n: int, d: int) -> int {
    if d <= 0 {
        0
    } else {
        (n + d / 2) / d
    }
}

/// Spreads a usage figure in ten-thousandths of a percent over `cores`
/// cores, landing in hundredths: `n / (100 * cores)`, rounded half-up
/// once, at the end. The result never exceeds `n`.
pub fn div_rounded_scaled(n: u64, cores: u64) -> (r: u64)
    requires
        cores >= 1,
    ensures
        r == div_round_half_up(n as int, 100 * (cores as int)),
        r <= n,
{
    let den: u128 = 100 * (cores as u128);
    let num: u128 = (n as u128) + den / 2;
    let q: u128 = num / den;
    proof {
        assert(den / 2 == 50 * (cores as int)) by (nonlinear_arith)
            requires
                den == 100 * (cores as int),
                cores >= 1,
        ;
        lemma_div_pos_is_pos(num as int, den as int);
        assert(num < (den as int) * (n as int + 1)) by (nonlinear_arith)
            requires
                num == n as int + 50 * (cores as int),
                den == 100 * (cores as int),
                n >= 0,
                cores >= 1,
        ;
        lemma_multiply_divide_lt(num as int, den as int, n as int + 1);
    }
    q as u64
}

/// How many bytes of a resource are in use: `total - free`, guarded so that a
/// nonsensical reading with `free > total` degrades to 0 instead of
/// underflowing.
pub open spec fn used_of(total: int, free: int) -> int {
    if free <= total {
        total - free
    } else {
        0
    }
}

/// Executable form of `used_of`.
pub fn used_bytes(total: u64, free: u64) -> (r: u64)
    ensures
        r == used_of(total as int, free as int),
{
    if free <= total {
        total - free
    } else {
        0
    }
}

/// For every sane reading, used and free partition the total exactly:
/// `used + free == total` with no rounding (integer byte counts).
pub proof fn lemma_used_plus_free_is_total(total: int, free: int)
    requires
        0 <= free <= total,
    ensures
        used_of(total, free) + free == total,
{
}

/// A percentage of a value against a larger-or-equal total always lands in
/// the printable range: between 0.00% and 100.00% inclusive.
pub proof fn lemma_percentage_in_range(value: int, total: int)
    requires
        0 <= value <= total,
        total > 0,
    ensures
        0 <= pct_hundredths(value, total) <= 10000,
        pct_clamped(value, total) == pct_hundredths(value, total),
{
    let num = value * 10000 + total / 2;
    lemma_div_pos_is_pos(num, total);
    assert(num < total * 10001) by (nonlinear_arith)
        requires
            num == value * 10000 + total / 2,
            0 <= value <= total,
            total >= 1,
    ;
    lemma_multiply_divide_lt(num, total, 10001);
}

} // verus!
