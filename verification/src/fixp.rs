//! Fixed-point scalar arithmetic.
//!
//! A value `x` stands for the real number `x / 1000`. Stored quantities are
//! kept within `[-SIM_LIMIT, SIM_LIMIT]`; sums saturate at that range, and
//! scaling by a per-mille factor truncates toward zero, so the magnitude of a
//! scaled value never exceeds the magnitude of its input when the factor is
//! at most one.

use vstd::prelude::*;

verus! {

/// Bound on every stored simulation quantity (2^46 milli-units).
pub const SIM_LIMIT: i64 = 0x4000_0000_0000;

/// Largest per-mille scale factor accepted by `scale_i64`: a factor of one
/// thousand.
pub const SCALE_MAX: i64 = 1_000_000;

/// Mathematical saturation of `x` into `[-SIM_LIMIT, SIM_LIMIT]`.
pub open spec fn sat(x: int) -> int {
    if x > SIM_LIMIT as int {
        SIM_LIMIT as int
    } else if x < -(SIM_LIMIT as int) {
        -(SIM_LIMIT as int)
    } else {
        x
    }
}

/// Division of `a` by positive `b`, rounding toward zero.
pub open spec fn div_trunc(a: int, b: int) -> int {
    if a >= 0 {
        a / b
    } else {
        -((-a) / b)
    }
}

/// `a` scaled by the per-mille factor `f`, rounding toward zero:
/// the fixed-point product of `a` and `f / 1000`.
pub open spec fn scale(a: int, f: int) -> int {
    div_trunc(a * f, 1000)
}

/// Saturating addition: the exact sum where it lies within the simulation
/// range, and the nearer bound where it does not.
pub fn sat_add(a: i64, b: i64) -> (r: i64)
    requires
        -SIM_LIMIT <= a <= SIM_LIMIT,
        -2048 * SIM_LIMIT <= b <= 2048 * SIM_LIMIT,
    ensures
        r == sat(a + b),
        -SIM_LIMIT <= r <= SIM_LIMIT,
{
    let s: i64 = a + b;
    if s > SIM_LIMIT {
        SIM_LIMIT
    } else if s < -SIM_LIMIT {
        -SIM_LIMIT
    } else {
        s
    }
}

/// Fixed-point scaling: `a * f / 1000` truncated toward zero.
pub fn scale_i64(a: i64, f: i64) -> (r: i64)
    requires
        -4 * SIM_LIMIT <= a <= 4 * SIM_LIMIT,
        0 <= f <= SCALE_MAX,
    ensures
        r == scale(a as int, f as int),
{
    let mag: u64 = if a < 0 {
        (-a) as u64
    } else {
        a as u64
    };
    proof {
        assert(mag == if a >= 0 { a as int } else { -(a as int) });
        assert((mag as int) * (f as int) <= 4 * (SIM_LIMIT as int) * (SCALE_MAX as int))
            by (nonlinear_arith)
            requires
                0 <= mag as int <= 4 * (SIM_LIMIT as int),
                0 <= f as int <= SCALE_MAX as int,
        ;
    }
    let prod: u128 = (mag as u128) * (f as u128);
    let q: u128 = prod / 1000;
    proof {
        vstd::arithmetic::div_mod::lemma_div_is_ordered(
            prod as int,
            4 * (SIM_LIMIT as int) * (SCALE_MAX as int),
            1000,
        );
        assert(4 * (SIM_LIMIT as int) * (SCALE_MAX as int) / 1000 < i64::MAX as int);
    }
    let qi: i64 = q as i64;
    if a < 0 {
        proof {
            assert((a as int) * (f as int) == -(mag * f)) by (nonlinear_arith)
                requires
                    mag == -(a as int),
            ;
        }
        -qi
    } else {
        qi
    }
}

/// Fixed-point scaling with a factor of either sign.
pub fn scale_i64_signed(a: i64, f: i64) -> (r: i64)
    requires
        -4 * SIM_LIMIT <= a <= 4 * SIM_LIMIT,
        -SCALE_MAX <= f <= SCALE_MAX,
    ensures
        r == scale(a as int, f as int),
{
    if f >= 0 {
        scale_i64(a, f)
    } else {
        proof {
            assert((a as int) * (f as int) == -((-(a as int)) * (f as int))
                && (-(a as int)) * (f as int) == (a as int) * (-(f as int))) by (nonlinear_arith);
        }
        let r = scale_i64(a, -f);
        proof {
            let m = 4 * (SIM_LIMIT as int) * (SCALE_MAX as int);
            assert(-m <= (a as int) * (-(f as int)) <= m) by (nonlinear_arith)
                requires
                    m == 4 * (SIM_LIMIT as int) * (SCALE_MAX as int),
                    -4 * (SIM_LIMIT as int) <= a as int <= 4 * (SIM_LIMIT as int),
                    0 <= -(f as int) <= SCALE_MAX as int,
            ;
            lemma_div_trunc_bounds((a as int) * (-(f as int)), 1000, m);
        }
        -r
    }
}

/// The magnitude of a truncated quotient is bounded by the quotient of a
/// magnitude bound.
pub proof fn lemma_div_trunc_bounds(a: int, b: int, m: int)
    requires
        1 <= b,
        -m <= a <= m,
        0 <= m,
    ensures
        -(m / b) <= div_trunc(a, b) <= m / b,
{
    if a >= 0 {
        vstd::arithmetic::div_mod::lemma_div_is_ordered(a, m, b);
        vstd::arithmetic::div_mod::lemma_div_pos_is_pos(a, b);
    } else {
        vstd::arithmetic::div_mod::lemma_div_is_ordered(-a, m, b);
        vstd::arithmetic::div_mod::lemma_div_pos_is_pos(-a, b);
    }
}

/// Truncated division of a wide intermediate by a positive divisor.
pub fn div_trunc_i128(a: i128, b: i64) -> (r: i64)
    requires
        1 <= b,
        -(i64::MAX as i128) <= a <= i64::MAX as i128,
    ensures
        r as int == div_trunc(a as int, b as int),
{
    let neg = a < 0;
    let mag: u128 = if neg {
        (-a) as u128
    } else {
        a as u128
    };
    let q: u128 = mag / (b as u128);
    proof {
        vstd::arithmetic::div_mod::lemma_div_nonincreasing(mag as int, b as int);
        vstd::arithmetic::div_mod::lemma_div_pos_is_pos(mag as int, b as int);
    }
    let qi: i64 = q as i64;
    if neg {
        -qi
    } else {
        qi
    }
}

/// Scaling by a per-mille factor of at most one never grows a magnitude and
/// never flips a sign.
pub proof fn lemma_scale_shrinks(a: int, f: int)
    requires
        0 <= f <= 1000,
    ensures
        a >= 0 ==> 0 <= scale(a, f) <= a,
        a <= 0 ==> a <= scale(a, f) <= 0,
{
    if a >= 0 {
        assert(0 <= a * f <= a * 1000) by (nonlinear_arith)
            requires
                a >= 0,
                0 <= f <= 1000,
        ;
        vstd::arithmetic::div_mod::lemma_div_is_ordered(a * f, a * 1000, 1000);
        vstd::arithmetic::div_mod::lemma_div_multiples_vanish(a, 1000);
        vstd::arithmetic::div_mod::lemma_div_pos_is_pos(a * f, 1000);
    } else {
        let b = -a;
        assert(0 <= b * f <= b * 1000) by (nonlinear_arith)
            requires
                b >= 0,
                0 <= f <= 1000,
        ;
        vstd::arithmetic::div_mod::lemma_div_is_ordered(b * f, b * 1000, 1000);
        vstd::arithmetic::div_mod::lemma_div_multiples_vanish(b, 1000);
        vstd::arithmetic::div_mod::lemma_div_pos_is_pos(b * f, 1000);
        assert(a * f == -(b * f)) by (nonlinear_arith)
            requires
                b == -a,
        ;
        assert(scale(a, f) == -((b * f) / 1000));
    }
}

/// Scaling a nonzero value by a per-mille factor strictly below one strictly
/// shrinks its magnitude.
pub proof fn lemma_scale_strict(a: int, f: int)
    requires
        0 <= f < 1000,
        a != 0,
    ensures
        a > 0 ==> 0 <= scale(a, f) < a,
        a < 0 ==> a < scale(a, f) <= 0,
{
    lemma_scale_shrinks(a, f);
    if a > 0 {
        assert(a * f <= 1000 * (a - 1) + 999) by (nonlinear_arith)
            requires
                a >= 1,
                0 <= f <= 999,
        ;
        vstd::arithmetic::div_mod::lemma_div_is_ordered(a * f, 1000 * (a - 1) + 999, 1000);
        vstd::arithmetic::div_mod::lemma_fundamental_div_mod_converse(
            1000 * (a - 1) + 999,
            1000,
            a - 1,
            999,
        );
    } else {
        let b = -a;
        assert(b * f <= 1000 * (b - 1) + 999) by (nonlinear_arith)
            requires
                b >= 1,
                0 <= f <= 999,
        ;
        vstd::arithmetic::div_mod::lemma_div_is_ordered(b * f, 1000 * (b - 1) + 999, 1000);
        vstd::arithmetic::div_mod::lemma_fundamental_div_mod_converse(
            1000 * (b - 1) + 999,
            1000,
            b - 1,
            999,
        );
        assert(a * f == -(b * f)) by (nonlinear_arith)
            requires
                b == -a,
        ;
        assert(scale(a, f) == -((b * f) / 1000));
    }
}

/// The mathematical floor of the square root of `n` (meaningful for `n >= 0`).
pub open spec fn sqrt_floor(n: int) -> int {
    choose|r: int| 0 <= r && #[trigger] (r * r) <= n && n < (r + 1) * (r + 1)
}

/// The mathematical ceiling of the square root of `n`.
pub open spec fn sqrt_ceil(n: int) -> int {
    if sqrt_floor(n) * sqrt_floor(n) == n {
        sqrt_floor(n)
    } else {
        sqrt_floor(n) + 1
    }
}

/// Every nonnegative integer has an integer square root, so `sqrt_floor`
/// satisfies its defining property on every nonnegative argument.
pub proof fn lemma_sqrt_floor_props(n: int)
    requires
        0 <= n,
    ensures
        0 <= sqrt_floor(n),
        sqrt_floor(n) * sqrt_floor(n) <= n,
        n < (sqrt_floor(n) + 1) * (sqrt_floor(n) + 1),
    decreases n,
{
    if n == 0 {
        assert(0 <= 0 && #[trigger] (0 * 0) <= 0 && 0 < (0 + 1) * (0 + 1));
    } else {
        lemma_sqrt_floor_props(n - 1);
        let f = sqrt_floor(n - 1);
        if n < (f + 1) * (f + 1) {
            assert(0 <= f && #[trigger] (f * f) <= n && n < (f + 1) * (f + 1));
        } else {
            let g = f + 1;
            assert(n == g * g);
            assert(g * g < (g + 1) * (g + 1)) by (nonlinear_arith)
                requires
                    g >= 0,
            ;
            assert(0 <= g && #[trigger] (g * g) <= n && n < (g + 1) * (g + 1));
        }
        assert(exists|r: int| 0 <= r && #[trigger] (r * r) <= n && n < (r + 1) * (r + 1));
    }
}

/// The ceiling square root bounds its argument from above by its square
/// and sits at most one above the floor square root.
pub proof fn lemma_sqrt_ceil_props(n: int)
    requires
        0 <= n,
    ensures
        0 <= sqrt_ceil(n),
        n <= sqrt_ceil(n) * sqrt_ceil(n),
        sqrt_floor(n) <= sqrt_ceil(n) <= sqrt_floor(n) + 1,
{
    lemma_sqrt_floor_props(n);
}

/// Multiplying a truncated quotient back by its positive divisor stays
/// within the numerator.
pub proof fn lemma_div_trunc_mul_bound(a: int, b: int)
    requires
        1 <= b,
    ensures
        a >= 0 ==> 0 <= div_trunc(a, b) * b <= a,
        a < 0 ==> a <= div_trunc(a, b) * b <= 0,
{
    if a >= 0 {
        vstd::arithmetic::div_mod::lemma_fundamental_div_mod(a, b);
        vstd::arithmetic::div_mod::lemma_div_pos_is_pos(a, b);
        assert(b * (a / b) == (a / b) * b) by (nonlinear_arith);
        assert((a / b) * b >= 0) by (nonlinear_arith)
            requires
                a / b >= 0,
                b >= 1,
        ;
    } else {
        let m = -a;
        vstd::arithmetic::div_mod::lemma_fundamental_div_mod(m, b);
        vstd::arithmetic::div_mod::lemma_div_pos_is_pos(m, b);
        assert(b * (m / b) == (m / b) * b) by (nonlinear_arith);
        assert((m / b) * b >= 0) by (nonlinear_arith)
            requires
                m / b >= 0,
                b >= 1,
        ;
        assert(div_trunc(a, b) * b == -((m / b) * b)) by (nonlinear_arith)
            requires
                div_trunc(a, b) == -(m / b),
        ;
    }
}

/// Truncated division with a wide numerator: the numerator may be as large
/// as `i64::MAX` times the divisor.
pub fn div_trunc_rel(a: i128, b: i64) -> (r: i64)
    requires
        1 <= b,
        -((i64::MAX as int) * (b as int)) <= a as int <= (i64::MAX as int) * (b as int),
    ensures
        r as int == div_trunc(a as int, b as int),
{
    proof {
        assert((i64::MAX as int) * (b as int) <= (i64::MAX as int) * (i64::MAX as int))
            by (nonlinear_arith)
            requires
                1 <= b as int <= i64::MAX as int,
        ;
        assert(-((i64::MAX as int) * (i64::MAX as int)) <= a as int);
    }
    let neg = a < 0;
    let mag: u128 = if neg {
        (-a) as u128
    } else {
        a as u128
    };
    proof {
        assert(mag as int == if a >= 0 {
            a as int
        } else {
            -(a as int)
        });
        assert(mag as int <= (i64::MAX as int) * (b as int));
    }
    let q: u128 = mag / (b as u128);
    proof {
        vstd::arithmetic::div_mod::lemma_div_is_ordered(
            mag as int,
            (i64::MAX as int) * (b as int),
            b as int,
        );
        assert((i64::MAX as int) * (b as int) == (b as int) * (i64::MAX as int))
            by (nonlinear_arith);
        vstd::arithmetic::div_mod::lemma_div_multiples_vanish(i64::MAX as int, b as int);
        vstd::arithmetic::div_mod::lemma_div_pos_is_pos(mag as int, b as int);
    }
    let qi: i64 = q as i64;
    if neg {
        -qi
    } else {
        qi
    }
}

/// Two integer square roots of the same value agree.
pub proof fn lemma_sqrt_floor_unique(n: int, r: int)
    requires
        0 <= r,
        r * r <= n,
        n < (r + 1) * (r + 1),
    ensures
        sqrt_floor(n) == r,
{
    assert(0 <= r && #[trigger] (r * r) <= n && n < (r + 1) * (r + 1));
    let c = choose|c: int| 0 <= c && #[trigger] (c * c) <= n && n < (c + 1) * (c + 1);
    if c < r {
        assert((c + 1) * (c + 1) <= r * r) by (nonlinear_arith)
            requires
                0 <= c,
                c + 1 <= r,
        ;
    } else if r < c {
        assert((r + 1) * (r + 1) <= c * c) by (nonlinear_arith)
            requires
                0 <= r,
                r + 1 <= c,
        ;
    }
}

/// A square below another square bounds the root's magnitude.
pub proof fn lemma_abs_le_of_sq_lt(a: int, b: int)
    requires
        a * a < (b + 1) * (b + 1),
        0 <= b,
    ensures
        -b <= a <= b,
{
    if a > b {
        assert((b + 1) * (b + 1) <= a * a) by (nonlinear_arith)
            requires
                0 <= b + 1 <= a,
        ;
    }
    if a < -b {
        assert((b + 1) * (b + 1) <= a * a) by (nonlinear_arith)
            requires
                a <= -(b + 1) <= 0,
        ;
    }
}

/// A value between zero and `a` (on either side) has a square no larger
/// than the square of `a`.
pub proof fn lemma_sq_between(s: int, a: int)
    requires
        0 <= s <= a || a <= s <= 0,
    ensures
        s * s <= a * a,
{
    assert(s * s <= a * a) by (nonlinear_arith)
        requires
            0 <= s <= a || a <= s <= 0,
    ;
}

/// A value strictly between zero-inclusive and `a` has a strictly smaller
/// square.
pub proof fn lemma_sq_between_strict(s: int, a: int)
    requires
        0 <= s < a || a < s <= 0,
    ensures
        s * s < a * a,
{
    assert(s * s < a * a) by (nonlinear_arith)
        requires
            0 <= s < a || a < s <= 0,
    ;
}

/// Upper bound on inputs accepted by `isqrt` (2^94).
pub const ISQRT_IN_BOUND: u128 = 0x4000_0000_0000_0000_0000_0000;

/// Every `isqrt` result is below this bound (2^47).
pub const ISQRT_OUT_BOUND: u64 = 0x8000_0000_0000;

/// Integer square root: the greatest `r` with `r * r <= n`.
pub fn isqrt(n: u128) -> (r: u64)
    requires
        n < ISQRT_IN_BOUND,
    ensures
        (r as int) * (r as int) <= n as int,
        (n as int) < (r as int + 1) * (r as int + 1),
        r < ISQRT_OUT_BOUND,
        r == sqrt_floor(n as int),
{
    let mut lo: u64 = 0;
    let mut hi: u64 = ISQRT_OUT_BOUND;
    assert((ISQRT_OUT_BOUND as int) * (ISQRT_OUT_BOUND as int) == ISQRT_IN_BOUND as int);
    while lo + 1 < hi
        invariant
            lo < hi <= ISQRT_OUT_BOUND,
            (lo as int) * (lo as int) <= n as int,
            (n as int) < (hi as int) * (hi as int),
        decreases hi - lo,
    {
        let mid: u64 = lo + (hi - lo) / 2;
        proof {
            vstd::arithmetic::mul::lemma_mul_upper_bound(
                mid as int,
                ISQRT_OUT_BOUND as int,
                mid as int,
                ISQRT_OUT_BOUND as int,
            );
        }
        let sq: u128 = (mid as u128) * (mid as u128);
        if sq <= n {
            lo = mid;
        } else {
            hi = mid;
        }
    }
    proof {
        lemma_sqrt_floor_unique(n as int, lo as int);
    }
    lo
}

} // verus!
