//! Fixed-point scalar arithmetic for the renderer.
//!
//! Every scalar quantity in the pipeline (coordinate, angle, intensity) is an
//! `i64` carrying three decimal places: the raw value is one thousand times
//! the modelled value. Angles are radians in the same encoding; trigonometry
//! is a rational approximation whose exact value is mirrored by spec
//! functions, so callers reason about the computed value itself.

use vstd::arithmetic::div_mod::{
    lemma_basic_div, lemma_div_is_ordered, lemma_div_multiples_vanish, lemma_div_pos_is_pos,
    lemma_fundamental_div_mod, lemma_fundamental_div_mod_converse_mod,
    lemma_mod_division_less_than_divisor,
};
use vstd::prelude::*;

verus! {

/// One unit (1.0) in the fixed-point encoding.
pub const FX_ONE: i64 = 1000;

/// Half a turn (pi) in the fixed-point encoding.
pub const FX_PI: i64 = 3142;

/// A full turn (two pi) in the fixed-point encoding.
pub const FX_TWO_PI: i64 = 6283;

/// A quarter turn (pi / 2) in the fixed-point encoding.
pub const FX_HALF_PI: i64 = 1571;

/// Magnitude bound kept on every coordinate that flows through a matrix.
pub const FX_LIM: i64 = 2_000_000_000;

/// Magnitude bound kept on every world, object and screen position.
pub const POS_LIM: i64 = 1_000_000_000;

pub open spec fn abs_s(a: int) -> int {
    if a >= 0 {
        a
    } else {
        -a
    }
}

/// Division truncated toward zero, the behaviour of `/` on machine integers.
pub open spec fn tdiv(a: int, b: int) -> int
    recommends
        b != 0,
{
    if (a >= 0) == (b >= 0) {
        abs_s(a) / abs_s(b)
    } else {
        -(abs_s(a) / abs_s(b))
    }
}

pub open spec fn clamp_s(x: int, lo: int, hi: int) -> int {
    if x < lo {
        lo
    } else if x > hi {
        hi
    } else {
        x
    }
}

/// Product of two fixed-point scalars.
pub open spec fn fx_mul_s(a: int, b: int) -> int {
    tdiv(a * b, 1000)
}

/// Quotient of two fixed-point scalars.
pub open spec fn fx_div_s(a: int, b: int) -> int {
    tdiv(a * 1000, b)
}

/// An angle reduced to one full turn, in [0, FX_TWO_PI).
pub open spec fn wrap_angle_s(a: int) -> int {
    a % 6283
}

pub proof fn lemma_tdiv_bound(a: int, b: int, m: int)
    requires
        b > 0,
        m >= 0,
        -(m * b) <= a <= m * b,
    ensures
        -m <= tdiv(a, b) <= m,
{
    let aa = abs_s(a);
    assert(aa <= m * b);
    lemma_div_pos_is_pos(aa, b);
    lemma_div_is_ordered(aa, m * b, b);
    lemma_div_multiples_vanish(m, b);
    assert((b * m) / b == m);
    assert(b * m == m * b) by (nonlinear_arith);
}

pub proof fn lemma_fx_mul_le(a: int, b: int, bound_a: int, bound_b: int)
    requires
        abs_s(a) <= bound_a,
        abs_s(b) <= bound_b,
    ensures
        abs_s(fx_mul_s(a, b)) <= tdiv(bound_a * bound_b, 1000),
        -(bound_a * bound_b) <= a * b <= bound_a * bound_b,
        bound_a * bound_b >= 0,
{
    let aa = abs_s(a);
    let ab = abs_s(b);
    assert(aa >= 0 && -aa <= a <= aa && ab >= 0 && -ab <= b <= ab);
    assert(-(bound_a * bound_b) <= a * b <= bound_a * bound_b && bound_a * bound_b >= 0)
        by (nonlinear_arith)
        requires
            aa >= 0,
            -aa <= a <= aa,
            ab >= 0,
            -ab <= b <= ab,
            aa <= bound_a,
            ab <= bound_b,
    ;
    let m = bound_a * bound_b;
    let p = abs_s(a * b);
    lemma_div_pos_is_pos(p, 1000);
    lemma_div_is_ordered(p, m, 1000);
    lemma_div_pos_is_pos(m, 1000);
}

/// Scaling by a factor of magnitude at most one never grows a value,
/// whichever side the factor stands on.
pub proof fn lemma_fx_mul_unit(a: int, b: int)
    requires
        -1000 <= b <= 1000,
    ensures
        abs_s(fx_mul_s(a, b)) <= abs_s(a),
        abs_s(fx_mul_s(b, a)) <= abs_s(a),
{
    let aa = abs_s(a);
    lemma_fx_mul_le(a, b, aa, 1000);
    lemma_fx_mul_le(b, a, 1000, aa);
    lemma_div_multiples_vanish(aa, 1000);
    assert((1000 * aa) / 1000 == aa);
    assert(1000 * aa == aa * 1000) by (nonlinear_arith);
}

/// A magnitude bound divided by 1000 bounds the scaled-down value, with one
/// unit of slack for the truncation.
pub proof fn lemma_tdiv_bound_plus(a: int, b: int)
    requires
        b >= 0,
        -b <= a <= b,
    ensures
        -(b / 1000 + 1) <= tdiv(a, 1000) <= b / 1000 + 1,
{
    lemma_fundamental_div_mod(b, 1000);
    lemma_mod_division_less_than_divisor(b, 1000);
    lemma_div_pos_is_pos(b, 1000);
    lemma_tdiv_bound(a, 1000, b / 1000 + 1);
}

/// Truncated division is symmetric under negating both operands.
pub proof fn lemma_tdiv_neg(a: int, b: int)
    requires
        b != 0,
    ensures
        tdiv(a, b) == tdiv(-a, -b),
{
    if a == 0 {
        vstd::arithmetic::div_mod::lemma_div_of0(abs_s(b));
    }
}

/// Truncated division by 1000 of anything smaller than 1000 gives zero.
pub proof fn lemma_tdiv_small(a: int)
    requires
        -1000 < a < 1000,
    ensures
        tdiv(a, 1000) == 0,
{
    lemma_basic_div(abs_s(a), 1000);
}

pub fn clamp_i64(x: i64, lo: i64, hi: i64) -> (r: i64)
    requires
        lo <= hi,
    ensures
        r == clamp_s(x as int, lo as int, hi as int),
        lo <= r <= hi,
{
    if x < lo {
        lo
    } else if x > hi {
        hi
    } else {
        x
    }
}

/// Truncated division on wide intermediates, reduced to the division of the
/// magnitudes so that the sign never reaches the hardware divider.
pub(crate) fn tdiv_i128(a: i128, b: i128) -> (r: i128)
    requires
        b != 0,
        -170141183460469231731687303715884105727 <= a,
        -170141183460469231731687303715884105727 <= b,
    ensures
        r == tdiv(a as int, b as int),
        abs_s(r as int) <= abs_s(a as int),
{
    let na: i128 = if a >= 0 {
        a
    } else {
        -a
    };
    let nb: i128 = if b >= 0 {
        b
    } else {
        -b
    };
    let q: i128 = na / nb;
    proof {
        lemma_div_pos_is_pos(na as int, nb as int);
        assert(na as int <= na as int * nb as int) by (nonlinear_arith)
            requires
                na >= 0,
                nb >= 1,
        ;
        lemma_div_is_ordered(na as int, na as int * nb as int, nb as int);
        lemma_div_multiples_vanish(na as int, nb as int);
        assert(nb as int * na as int == na as int * nb as int) by (nonlinear_arith);
    }
    if (a >= 0) == (b >= 0) {
        q
    } else {
        -q
    }
}

/// Fixed-point multiply; the product is widened to 128 bits before the
/// scale-down, so only the final value must fit the scalar type.
pub fn fx_mul(a: i64, b: i64) -> (r: i64)
    requires
        -3_000_000_000 <= a <= 3_000_000_000,
        -3_000_000_000 <= b <= 3_000_000_000,
    ensures
        r == fx_mul_s(a as int, b as int),
        -9_000_000_000_000_000 <= r <= 9_000_000_000_000_000,
{
    proof {
        lemma_fx_mul_le(a as int, b as int, 3_000_000_000, 3_000_000_000);
        lemma_tdiv_bound(a as int * b as int, 1000, 9_000_000_000_000_000);
    }
    let p: i128 = (a as i128) * (b as i128);
    tdiv_i128(p, 1000) as i64
}

/// Fixed-point divide, truncated toward zero.
pub fn fx_div(a: i64, b: i64) -> (r: i64)
    requires
        b != 0,
        -9_000_000_000_000_000 <= a <= 9_000_000_000_000_000,
    ensures
        r == fx_div_s(a as int, b as int),
        abs_s(r as int) <= abs_s(1000 * a as int),
{
    let n: i128 = (a as i128) * 1000;
    let q = tdiv_i128(n, b as i128);
    proof {
        assert(abs_s(q as int) <= abs_s(n as int));
    }
    q as i64
}

/// Half-turn sine: the rational approximation of Bhaskara, which stays
/// inside [0, 1] on [0, pi] and hits 1 exactly at the quarter turn.
pub open spec fn bhask_s(x: int) -> int
    recommends
        0 <= x <= 3142,
{
    let t = x * (3142 - x);
    (16000 * t) / (49360820 - 4 * t)
}

/// Sine of a fixed-point angle, defined on the reduced angle.
pub open spec fn fx_sin_s(a: int) -> int {
    let m = a % 6283;
    if m <= 3142 {
        bhask_s(m)
    } else {
        -bhask_s(m - 3142)
    }
}

/// Cosine, as the sine of the angle advanced by a quarter turn.
pub open spec fn fx_cos_s(a: int) -> int {
    fx_sin_s(a + 1571)
}

pub proof fn lemma_bhask_range(x: int)
    requires
        0 <= x <= 3142,
    ensures
        0 <= bhask_s(x) <= 1000,
{
    let t = x * (3142 - x);
    assert(0 <= x * (3142 - x) <= 2468041) by (nonlinear_arith)
        requires
            0 <= x <= 3142,
    ;
    let num = 16000 * t;
    let den = 49360820 - 4 * t;
    assert(den >= 39488656);
    assert(num <= 1000 * den);
    lemma_div_pos_is_pos(num, den);
    lemma_div_is_ordered(num, 1000 * den, den);
    lemma_div_multiples_vanish(1000, den);
    assert(den * 1000 == 1000 * den) by (nonlinear_arith);
}

fn bhask(x: i64) -> (r: i64)
    requires
        0 <= x <= 3142,
    ensures
        r == bhask_s(x as int),
        0 <= r <= 1000,
{
    proof {
        lemma_bhask_range(x as int);
        assert(0 <= x as int * (3142 - x as int) <= 2468041) by (nonlinear_arith)
            requires
                0 <= x <= 3142,
        ;
    }
    let t: i64 = x * (3142 - x);
    let num: i64 = 16000 * t;
    let den: i64 = 49360820 - 4 * t;
    num / den
}

/// Sine of an angle in the fixed-point encoding (any number of turns).
pub fn fx_sin(a: i64) -> (r: i64)
    ensures
        r == fx_sin_s(a as int),
        -1000 <= r <= 1000,
{
    let m = wrap_angle(a);
    if m <= 3142 {
        bhask(m)
    } else {
        -bhask(m - 3142)
    }
}

/// Cosine of an angle in the fixed-point encoding.
pub fn fx_cos(a: i64) -> (r: i64)
    requires
        -9_000_000_000_000_000_000 <= a <= 9_000_000_000_000_000_000,
    ensures
        r == fx_cos_s(a as int),
        -1000 <= r <= 1000,
{
    fx_sin(a + 1571)
}

/// On [1, FX_PI - 1] the sine approximation is strictly positive.
pub proof fn lemma_bhask_pos(x: int)
    requires
        1 <= x <= 3141,
    ensures
        bhask_s(x) >= 1,
{
    let t = x * (3142 - x);
    assert(3141 <= x * (3142 - x) <= 2468041) by (nonlinear_arith)
        requires
            1 <= x <= 3141,
    ;
    let num = 16000 * t;
    let den = 49360820 - 4 * t;
    lemma_div_is_ordered(den, num, den);
    vstd::arithmetic::div_mod::lemma_div_by_self(den);
}

/// Floor division by 1000: the pixel column or row of a raw coordinate.
pub open spec fn fdiv1000_s(x: int) -> int {
    x / 1000
}

/// Ceiling division by 1000.
pub open spec fn cdiv1000_s(x: int) -> int {
    (x + 999) / 1000
}

/// Floor of a raw coordinate divided by the scale.
pub fn fdiv1000(x: i64) -> (r: i64)
    requires
        -4_000_000_000_000_000_000 <= x <= 4_000_000_000_000_000_000,
    ensures
        r == fdiv1000_s(x as int),
{
    if x >= 0 {
        x / 1000
    } else {
        let k: i64 = -x;
        let m: i64 = (k + 999) / 1000;
        proof {
            lemma_fundamental_div_mod(k + 999, 1000);
            lemma_mod_division_less_than_divisor(k + 999, 1000);
            let q = (k + 999 as int) / 1000;
            let s = (k + 999 as int) % 1000;
            assert(x as int == (-q) * 1000 + (999 - s)) by (nonlinear_arith)
                requires
                    k + 999 == 1000 * q + s,
                    k == -(x as int),
            ;
            vstd::arithmetic::div_mod::lemma_fundamental_div_mod_converse_div(
                x as int,
                1000,
                -q,
                999 - s,
            );
        }
        -m
    }
}

/// Ceiling of a raw coordinate divided by the scale.
pub fn cdiv1000(x: i64) -> (r: i64)
    requires
        -4_000_000_000_000_000_000 <= x <= 3_999_999_999_999_999_000,
    ensures
        r == cdiv1000_s(x as int),
{
    fdiv1000(x + 999)
}

/// Arctangent on [0, 1], by the quadratic approximation whose error stays
/// below a hundredth of a radian.
pub open spec fn atan_unit_s(t: int) -> int {
    fx_mul_s(t, 785 + fx_mul_s(273, 1000 - t))
}

fn atan_unit(t: i64) -> (r: i64)
    requires
        0 <= t <= 1000,
    ensures
        r == atan_unit_s(t as int),
        0 <= r <= 1058,
{
    proof {
        lemma_fx_mul_le(273, 1000 - t as int, 273, 1000);
        lemma_fx_mul_le(t as int, 785 + fx_mul_s(273, 1000 - t as int), 1000, 1058);
        assert(0 <= (t as int) * (785 + fx_mul_s(273, 1000 - t as int))) by (nonlinear_arith)
            requires
                t >= 0,
                785 + fx_mul_s(273, 1000 - t as int) >= 0,
        ;
        lemma_div_pos_is_pos((t as int) * (785 + fx_mul_s(273, 1000 - t as int)), 1000);
    }
    fx_mul(t, 785 + fx_mul(273, 1000 - t))
}

/// Four-quadrant arctangent of `z / x` in the fixed-point encoding, in
/// [-FX_PI, FX_PI], zero at the origin.
pub open spec fn fx_atan2_s(z: int, x: int) -> int {
    if z == 0 && x == 0 {
        0
    } else {
        let az = abs_s(z);
        let ax = abs_s(x);
        let base = if az <= ax {
            atan_unit_s(fx_div_s(az, ax))
        } else {
            1571 - atan_unit_s(fx_div_s(ax, az))
        };
        if x >= 0 && z >= 0 {
            base
        } else if x < 0 && z >= 0 {
            3142 - base
        } else if x < 0 {
            -(3142 - base)
        } else {
            -base
        }
    }
}

pub fn fx_atan2(z: i64, x: i64) -> (r: i64)
    requires
        -1_000_000_000 <= z <= 1_000_000_000,
        -1_000_000_000 <= x <= 1_000_000_000,
    ensures
        r == fx_atan2_s(z as int, x as int),
        -3142 <= r <= 3142,
{
    if z == 0 && x == 0 {
        return 0;
    }
    let az = if z >= 0 {
        z
    } else {
        -z
    };
    let ax = if x >= 0 {
        x
    } else {
        -x
    };
    let base: i64 = if az <= ax {
        proof {
            assert((az as int) * 1000 <= 1000 * (ax as int));
            lemma_tdiv_bound((az as int) * 1000, ax as int, 1000);
            lemma_div_pos_is_pos((az as int) * 1000, ax as int);
        }
        atan_unit(fx_div(az, ax))
    } else {
        proof {
            assert((ax as int) * 1000 <= 1000 * (az as int));
            lemma_tdiv_bound((ax as int) * 1000, az as int, 1000);
            lemma_div_pos_is_pos((ax as int) * 1000, az as int);
        }
        1571 - atan_unit(fx_div(ax, az))
    };
    if x >= 0 && z >= 0 {
        base
    } else if x < 0 && z >= 0 {
        3142 - base
    } else if x < 0 {
        -(3142 - base)
    } else {
        -base
    }
}

/// Floor of the square root, as a recursively defined mathematical value.
pub open spec fn isqrt_s(n: int) -> int
    decreases n,
{
    if n <= 0 {
        0
    } else {
        let p = isqrt_s(n - 1);
        if (p + 1) * (p + 1) <= n {
            p + 1
        } else {
            p
        }
    }
}

pub proof fn lemma_isqrt_s_props(n: int)
    requires
        n >= 0,
    ensures
        isqrt_s(n) >= 0,
        isqrt_s(n) * isqrt_s(n) <= n,
        n < (isqrt_s(n) + 1) * (isqrt_s(n) + 1),
    decreases n,
{
    if n == 0 {
    } else {
        lemma_isqrt_s_props(n - 1);
        let p = isqrt_s(n - 1);
        if (p + 1) * (p + 1) <= n {
            assert(n < (p + 2) * (p + 2)) by (nonlinear_arith)
                requires
                    p >= 0,
                    n - 1 < (p + 1) * (p + 1),
                    (p + 1) * (p + 1) <= n,
            ;
        }
    }
}

pub proof fn lemma_isqrt_unique(n: int, r: int)
    requires
        n >= 0,
        r >= 0,
        r * r <= n,
        n < (r + 1) * (r + 1),
    ensures
        r == isqrt_s(n),
{
    lemma_isqrt_s_props(n);
    let s = isqrt_s(n);
    if r < s {
        assert((r + 1) * (r + 1) <= s * s) by (nonlinear_arith)
            requires
                0 <= r,
                r < s,
        ;
    }
    if s < r {
        assert((s + 1) * (s + 1) <= r * r) by (nonlinear_arith)
            requires
                0 <= s,
                s < r,
        ;
    }
}

/// Floor square root of a wide unsigned value, by bisection.
pub fn isqrt_u128(n: u128) -> (r: u64)
    ensures
        r == isqrt_s(n as int),
        r as int * r as int <= n as int,
        (n as int) < ((r as int) + 1) * ((r as int) + 1),
{
    let mut lo: u128 = 0;
    let mut hi: u128 = 18446744073709551616;
    proof {
        assert((18446744073709551616 as int) * (18446744073709551616 as int) > u128::MAX as int)
            by (nonlinear_arith);
    }
    while hi - lo > 1
        invariant
            0 <= lo < hi <= 18446744073709551616,
            lo as int * lo as int <= n as int,
            (n as int) < (hi as int) * (hi as int),
        decreases hi - lo,
    {
        let mid: u128 = lo + (hi - lo) / 2;
        proof {
            assert(mid < 18446744073709551616);
            assert((mid as int) * (mid as int) < u128::MAX as int) by (nonlinear_arith)
                requires
                    0 <= mid < 18446744073709551616,
            ;
        }
        if mid * mid <= n {
            lo = mid;
        } else {
            hi = mid;
        }
    }
    proof {
        lemma_isqrt_unique(n as int, lo as int);
    }
    lo as u64
}

pub open spec fn min_s(a: int, b: int) -> int {
    if a < b {
        a
    } else {
        b
    }
}

pub open spec fn max_s(a: int, b: int) -> int {
    if a > b {
        a
    } else {
        b
    }
}

pub fn min_i64(a: i64, b: i64) -> (r: i64)
    ensures
        r == min_s(a as int, b as int),
{
    if a < b {
        a
    } else {
        b
    }
}

pub fn max_i64(a: i64, b: i64) -> (r: i64)
    ensures
        r == max_s(a as int, b as int),
{
    if a > b {
        a
    } else {
        b
    }
}

/// Euclidean remainder for a positive modulus: always in [0, m).
pub fn emod(x: i64, m: i64) -> (r: i64)
    requires
        2 <= m,
    ensures
        r == (x as int) % (m as int),
        0 <= r < m,
{
    let t: i64 = x % m;
    if x >= 0 {
        t
    } else {
        proof {
            let k = -(x as int);
            lemma_fundamental_div_mod(k, m as int);
            lemma_mod_division_less_than_divisor(k, m as int);
            let u = k / (m as int);
            let s = k % (m as int);
            if s == 0 {
                assert(x as int == (-u) * (m as int) + 0) by (nonlinear_arith)
                    requires
                        k == (m as int) * u + s,
                        s == 0,
                        k == -(x as int),
                ;
                lemma_fundamental_div_mod_converse_mod(x as int, m as int, -u, 0);
            } else {
                assert(x as int == (-u - 1) * (m as int) + ((m as int) - s)) by (nonlinear_arith)
                    requires
                        k == (m as int) * u + s,
                        k == -(x as int),
                ;
                lemma_fundamental_div_mod_converse_mod(x as int, m as int, -u - 1, (m as int) - s);
            }
        }
        if t == 0 {
            0
        } else {
            t + m
        }
    }
}

/// Truncated division on machine scalars.
pub fn div_trunc(a: i64, b: i64) -> (r: i64)
    requires
        b != 0,
        -9_223_372_036_854_775_807 <= a,
        -9_223_372_036_854_775_807 <= b,
    ensures
        r == tdiv(a as int, b as int),
        abs_s(r as int) <= abs_s(a as int),
{
    tdiv_i128(a as i128, b as i128) as i64
}

/// Reduce an angle into [0, FX_TWO_PI).
pub fn wrap_angle(a: i64) -> (r: i64)
    ensures
        r == wrap_angle_s(a as int),
        0 <= r < 6283,
{
    let m: i64 = a % 6283;
    if a >= 0 {
        m
    } else {
        proof {
            let x = -(a as int);
            lemma_fundamental_div_mod(x, 6283);
            let u = x / 6283;
            let s = x % 6283;
            if s == 0 {
                assert(a as int == (-u) * 6283 + 0) by (nonlinear_arith)
                    requires
                        -(a as int) == 6283 * u + s,
                        s == 0,
                ;
                lemma_fundamental_div_mod_converse_mod(a as int, 6283, -u, 0);
            } else {
                assert(a as int == (-u - 1) * 6283 + (6283 - s)) by (nonlinear_arith)
                    requires
                        -(a as int) == 6283 * u + s,
                ;
                lemma_fundamental_div_mod_converse_mod(a as int, 6283, -u - 1, 6283 - s);
            }
        }
        if m == 0 {
            0
        } else {
            m + 6283
        }
    }
}

} // verus!
