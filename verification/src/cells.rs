//! How many cells of a bar are completed and how many remain.
//!
//! The count of completed cells is the exact ratio `width * value / max` rounded up
//! to the next integer, so that any progress at all shows at least one cell. The count
//! of remaining cells is what is left of the width. Both are computed over the
//! integers, without intermediate rounding.

use vstd::prelude::*;
use vstd::arithmetic::div_mod::{lemma_fundamental_div_mod, lemma_fundamental_div_mod_converse};

verus! {

/// The ratio `n / d` rounded up to the next integer, for a positive divisor `d`.
pub open spec fn ceil_div(n: int, d: int) -> int
    recommends
        d > 0,
{
    -((-n) / d)
}

/// `ceil_div(n, d)` is the least integer `q` with `q * d >= n`.
pub proof fn lemma_ceil_div_is_least(n: int, d: int)
    requires
        d > 0,
    ensures
        ceil_div(n, d) * d >= n,
        (ceil_div(n, d) - 1) * d < n,
{
    let f = (-n) / d;
    let r = (-n) % d;
    lemma_fundamental_div_mod(-n, d);
    assert(-n == d * f + r);
    assert(0 <= r < d);
    assert((-f) * d == -(d * f)) by (nonlinear_arith);
    assert((-f - 1) * d == -(d * f) - d) by (nonlinear_arith);
}

/// The only integer `q` with `(q - 1) * d < n <= q * d` is `ceil_div(n, d)`.
pub proof fn lemma_ceil_div_unique(n: int, d: int, q: int)
    requires
        d > 0,
        (q - 1) * d < n <= q * d,
    ensures
        q == ceil_div(n, d),
{
    let r = q * d - n;
    assert(0 <= r < d) by (nonlinear_arith)
        requires
            r == q * d - n,
            (q - 1) * d < n <= q * d,
    ;
    assert(-n == (-q) * d + r) by (nonlinear_arith)
        requires
            r == q * d - n,
    ;
    lemma_fundamental_div_mod_converse(-n, d, -q, r);
}

/// The number of completed cells of a bar `width` cells wide that stands at `value`
/// out of `max`: the ratio `width * value / max`, rounded up.
///
/// The result may be negative or exceed `width` where the arguments are not those
/// of a bar in progress (`max > 0`, `0 <= value <= max`, `width >= 0`). With a
/// maximum of zero there is no ratio, and no cell counts as completed.
pub open spec fn filled_count(width: int, value: int, max: int) -> int {
    if max > 0 {
        ceil_div(width * value, max)
    } else if max < 0 {
        ceil_div(-(width * value), -max)
    } else {
        0
    }
}

/// The number of remaining cells: what the completed cells leave of the width.
pub open spec fn empty_count(width: int, value: int, max: int) -> int {
    width - filled_count(width, value, max)
}

/// The number of glyphs drawn for a count of cells: a negative count draws nothing,
/// and a count beyond the largest `usize` draws that many.
pub open spec fn shown(count: int) -> nat {
    if count <= 0 {
        0
    } else if count >= usize::MAX {
        usize::MAX as nat
    } else {
        count as nat
    }
}

/// Rounds the ratio of two machine integers up.
fn ceil_div_i128(n: i128, d: i128) -> (q: i128)
    requires
        d > 0,
        n > i128::MIN,
    ensures
        q == ceil_div(n as int, d as int),
{
    if n > 0 {
        let whole: i128 = n / d;
        let rest: i128 = n % d;
        proof {
            lemma_fundamental_div_mod(n as int, d as int);
            assert((whole - 1) * d == d * whole - d && (whole + 1) * d == d * whole + d
                && whole * d == d * whole) by (nonlinear_arith);
        }
        if rest > 0 {
            proof {
                assert(whole < n) by (nonlinear_arith)
                    requires
                        n == d * whole + rest,
                        0 < rest < d,
                        n > 0,
                ;
                lemma_ceil_div_unique(n as int, d as int, whole + 1);
            }
            whole + 1
        } else {
            proof {
                lemma_ceil_div_unique(n as int, d as int, whole as int);
            }
            whole
        }
    } else {
        -((-n) / d)
    }
}

/// The product of a width and a value is well within 128 bits.
proof fn lemma_scaled_bound(width: int, value: int)
    requires
        i32::MIN <= width <= i32::MAX,
        i64::MIN <= value <= i64::MAX,
    ensures
        -0x4000_0000_0000_0000_0000_0000 <= width * value <= 0x4000_0000_0000_0000_0000_0000,
{
    assert(-0x4000_0000_0000_0000_0000_0000 <= width * value <= 0x4000_0000_0000_0000_0000_0000)
        by (nonlinear_arith)
        requires
            -0x8000_0000 <= width <= 0x8000_0000,
            -0x8000_0000_0000_0000 <= value <= 0x8000_0000_0000_0000,
    ;
}

/// Computes [`filled_count`] for the integers a bar holds.
pub fn filled_cells(width: i32, value: i64, max: i64) -> (count: i128)
    ensures
        count == filled_count(width as int, value as int, max as int),
{
    if max == 0 {
        return 0;
    }
    proof {
        lemma_scaled_bound(width as int, value as int);
    }
    let scaled: i128 = (width as i128) * (value as i128);
    if max > 0 {
        ceil_div_i128(scaled, max as i128)
    } else {
        ceil_div_i128(-scaled, -(max as i128))
    }
}

/// Computes [`empty_count`] for the integers a bar holds.
pub fn empty_cells(width: i32, value: i64, max: i64) -> (count: i128)
    ensures
        count == empty_count(width as int, value as int, max as int),
{
    let filled: i128 = filled_cells(width, value, max);
    proof {
        lemma_filled_count_bound(width as int, value as int, max as int);
    }
    (width as i128) - filled
}

/// Computes [`shown`]: clamps a count of cells to what can be drawn.
pub fn shown_cells(count: i128) -> (n: usize)
    ensures
        n == shown(count as int),
{
    if count <= 0 {
        0
    } else if count >= usize::MAX as i128 {
        usize::MAX
    } else {
        count as usize
    }
}

/// The completed cells number no more than the product of width and value does in
/// magnitude.
proof fn lemma_filled_count_bound(width: int, value: int, max: int)
    requires
        i32::MIN <= width <= i32::MAX,
        i64::MIN <= value <= i64::MAX,
    ensures
        -0x4000_0000_0000_0000_0000_0000 <= filled_count(width, value, max)
            <= 0x4000_0000_0000_0000_0000_0000,
{
    let n = width * value;
    lemma_scaled_bound(width, value);
    if max > 0 {
        lemma_ceil_div_magnitude(n, max);
    } else if max < 0 {
        lemma_ceil_div_magnitude(-n, -max);
    }
}

/// Rounding a ratio up moves it no further from zero than its numerator.
proof fn lemma_ceil_div_magnitude(n: int, d: int)
    requires
        d > 0,
    ensures
        n >= 0 ==> 0 <= ceil_div(n, d) <= n,
        n <= 0 ==> n <= ceil_div(n, d) <= 0,
{
    let q = ceil_div(n, d);
    lemma_ceil_div_is_least(n, d);
    assert(n >= 0 ==> 0 <= q <= n) by (nonlinear_arith)
        requires
            d > 0,
            q * d >= n,
            (q - 1) * d < n,
    ;
    assert(n <= 0 ==> n <= q <= 0) by (nonlinear_arith)
        requires
            d > 0,
            q * d >= n,
            (q - 1) * d < n,
    ;
}

} // verus!
