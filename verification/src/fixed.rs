//! Saturating fixed-point scalar arithmetic with 16 fractional bits.
//!
//! Every executable operation is mirrored by a spec function over `int`,
//! so that contracts elsewhere in the crate can state results exactly.
//! Division truncates toward zero (as Rust's `/` does) and every
//! operation clamps its mathematical result to the `i64` range.

use vstd::prelude::*;

verus! {

/// The fixed-point unit: the representation of the real number 1.
pub const SCALE: i64 = 65536;

/// Clamp an unbounded integer to the `i64` range.
pub open spec fn sat64(v: int) -> int {
    if v > i64::MAX as int {
        i64::MAX as int
    } else if v < i64::MIN as int {
        i64::MIN as int
    } else {
        v
    }
}

/// Division truncating toward zero, as Rust's `/` computes it
/// for a positive divisor.
pub open spec fn tdiv(a: int, b: int) -> int
    recommends
        b > 0,
{
    if a >= 0 {
        a / b
    } else {
        -((-a) / b)
    }
}

/// The saturated fixed-point product of `a` and `b`.
pub open spec fn fmul(a: int, b: int) -> int {
    sat64(tdiv(a * b, SCALE as int))
}

/// The saturated fixed-point quotient of `a` by `b`.
pub open spec fn fdiv(a: int, b: int) -> int
    recommends
        b > 0,
{
    sat64(tdiv(a * (SCALE as int), b))
}

/// The saturated sum of `a` and `b`.
pub open spec fn sadd(a: int, b: int) -> int {
    sat64(a + b)
}

/// The saturated difference of `a` and `b`.
pub open spec fn ssub(a: int, b: int) -> int {
    sat64(a - b)
}

/// The saturated negation of `a`.
pub open spec fn sneg(a: int) -> int {
    sat64(-a)
}

/// The saturated absolute value of `a`.
pub open spec fn sabs(a: int) -> int {
    if a < 0 {
        sneg(a)
    } else {
        a
    }
}

/// The integer square root, defined by counting up.
pub open spec fn isqrt_nat(n: nat) -> nat
    decreases n,
{
    if n == 0 {
        0
    } else {
        let r = isqrt_nat((n - 1) as nat);
        if (r + 1) * (r + 1) <= n {
            r + 1
        } else {
            r
        }
    }
}

/// The fixed-point square root: the integer square root of `x * SCALE`,
/// and 0 for any input that is not positive.
pub open spec fn fsqrt(x: int) -> int {
    if x <= 0 {
        0
    } else {
        isqrt_nat((x * (SCALE as int)) as nat) as int
    }
}

/// The integer square root lies within one of the exact root.
pub proof fn lemma_isqrt_bounds(n: nat)
    ensures
        isqrt_nat(n) * isqrt_nat(n) <= n,
        n < (isqrt_nat(n) + 1) * (isqrt_nat(n) + 1),
    decreases n,
{
    if n == 0 {
        let q = isqrt_nat(n);
        assert(q == 0);
        assert(q * q <= n && n < (q + 1) * (q + 1)) by (nonlinear_arith)
            requires
                n == 0,
                q == 0,
        ;
    } else {
        lemma_isqrt_bounds((n - 1) as nat);
        let r = isqrt_nat((n - 1) as nat);
        let q = isqrt_nat(n);
        assert(q == if (r + 1) * (r + 1) <= n {
            r + 1
        } else {
            r
        });
        assert(q * q <= n && n < (q + 1) * (q + 1)) by (nonlinear_arith)
            requires
                r * r <= n - 1,
                n - 1 < (r + 1) * (r + 1),
                q == if (r + 1) * (r + 1) <= n {
                    r + 1
                } else {
                    r
                },
                n >= 1,
        ;
        assert(isqrt_nat(n) * isqrt_nat(n) <= n);
        assert(n < (isqrt_nat(n) + 1) * (isqrt_nat(n) + 1));
    }
}

/// Any value meeting the square-root bounds is the integer square root.
pub proof fn lemma_isqrt_unique(n: nat, r: nat)
    requires
        r * r <= n,
        n < (r + 1) * (r + 1),
    ensures
        r == isqrt_nat(n),
{
    lemma_isqrt_bounds(n);
    let q = isqrt_nat(n);
    if r < q {
        assert(false) by (nonlinear_arith)
            requires
                r < q,
                q * q <= n,
                n < (r + 1) * (r + 1),
        ;
    }
    if q < r {
        assert(false) by (nonlinear_arith)
            requires
                q < r,
                r * r <= n,
                n < (q + 1) * (q + 1),
        ;
    }
}

/// The fixed-point representation of pi.
pub const PI_FP: i64 = 205887;

/// The fixed-point representation of two pi.
pub const TAU_FP: i64 = 411774;

/// The fixed-point representation of half pi.
pub const HALF_PI_FP: i64 = 102943;

/// The sine of `x` over the half turn [0, pi], by the rational
/// approximation 16 x (pi - x) / (5 pi^2 - 4 x (pi - x)).
pub open spec fn sin_half_s(x: int) -> int
    recommends
        0 <= x <= PI_FP as int,
{
    let a = fmul(x, PI_FP - x);
    let num = sat64(16 * a);
    let den = ssub(sat64(5 * fmul(PI_FP as int, PI_FP as int)), sat64(4 * a));
    if den > 0 {
        fdiv(num, den)
    } else {
        0
    }
}

/// The sine of `x` over the full turn [0, 2 pi].
pub open spec fn sin_s(x: int) -> int
    recommends
        0 <= x <= TAU_FP as int,
{
    if x <= PI_FP as int {
        sin_half_s(x)
    } else {
        sneg(sin_half_s(x - PI_FP))
    }
}

/// The cosine of `x` over the full turn [0, 2 pi], as the sine shifted
/// by a quarter turn.
pub open spec fn cos_s(x: int) -> int
    recommends
        0 <= x <= TAU_FP as int,
{
    let s = x + HALF_PI_FP;
    if s > TAU_FP as int {
        sin_s(s - TAU_FP)
    } else {
        sin_s(s)
    }
}

/// Clamp an `i128` value to the `i64` range.
fn clamp_to_i64(v: i128) -> (r: i64)
    ensures
        r as int == sat64(v as int),
{
    if v > i64::MAX as i128 {
        i64::MAX
    } else if v < i64::MIN as i128 {
        i64::MIN
    } else {
        v as i64
    }
}

/// Fixed-point multiplication, saturating at the `i64` range.
pub fn fp_mul(a: i64, b: i64) -> (r: i64)
    ensures
        r as int == fmul(a as int, b as int),
{
    proof {
        assert(-0x4000_0000_0000_0000_0000_0000_0000_0000 <= (a as int) * (b as int)
            <= 0x4000_0000_0000_0000_0000_0000_0000_0000) by (nonlinear_arith)
            requires
                i64::MIN <= a <= i64::MAX,
                i64::MIN <= b <= i64::MAX,
        ;
    }
    let p: i128 = (a as i128) * (b as i128);
    let q: i128 = p / (SCALE as i128);
    clamp_to_i64(q)
}

/// Fixed-point division by a positive divisor, saturating at the
/// `i64` range.
pub fn fp_div(a: i64, b: i64) -> (r: i64)
    requires
        b > 0,
    ensures
        r as int == fdiv(a as int, b as int),
{
    proof {
        assert(-0x8000_0000_0000_0000 * 65536 <= (a as int) * (SCALE as int)
            <= 0x8000_0000_0000_0000 * 65536) by (nonlinear_arith)
            requires
                i64::MIN <= a <= i64::MAX,
                SCALE == 65536,
        ;
    }
    let n: i128 = (a as i128) * (SCALE as i128);
    let q: i128 = n / (b as i128);
    clamp_to_i64(q)
}

/// Saturating addition.
pub fn fp_add(a: i64, b: i64) -> (r: i64)
    ensures
        r as int == sadd(a as int, b as int),
{
    clamp_to_i64((a as i128) + (b as i128))
}

/// Saturating subtraction.
pub fn fp_sub(a: i64, b: i64) -> (r: i64)
    ensures
        r as int == ssub(a as int, b as int),
{
    clamp_to_i64((a as i128) - (b as i128))
}

/// Saturating negation.
pub fn fp_neg(a: i64) -> (r: i64)
    ensures
        r as int == sneg(a as int),
{
    clamp_to_i64(-(a as i128))
}

/// Saturating absolute value.
pub fn fp_abs(a: i64) -> (r: i64)
    ensures
        r as int == sabs(a as int),
{
    if a < 0 {
        clamp_to_i64(-(a as i128))
    } else {
        a
    }
}

/// Saturating product of a plain integer factor and a fixed-point value.
pub fn fp_scale(k: i64, a: i64) -> (r: i64)
    ensures
        r as int == sat64(k * a),
{
    proof {
        assert(-0x4000_0000_0000_0000_0000_0000_0000_0000 <= (k as int) * (a as int)
            <= 0x4000_0000_0000_0000_0000_0000_0000_0000) by (nonlinear_arith)
            requires
                i64::MIN <= k <= i64::MAX,
                i64::MIN <= a <= i64::MAX,
        ;
    }
    clamp_to_i64((k as i128) * (a as i128))
}

/// Fixed-point square root: 0 for inputs that are not positive.
pub fn fp_sqrt(x: i64) -> (r: i64)
    ensures
        r as int == fsqrt(x as int),
        r >= 0,
{
    if x <= 0 {
        return 0;
    }
    proof {
        assert(0 <= (x as int) * (SCALE as int)
            && (x as int) * (SCALE as int) < 0x100_0000_0000 * 0x100_0000_0000)
            by (nonlinear_arith)
            requires
                0 < x <= i64::MAX,
                SCALE == 65536,
        ;
    }
    let n: u128 = (x as u128) * (SCALE as u128);
    let mut lo: u128 = 0;
    let mut hi: u128 = 0x100_0000_0000;
    while lo + 1 < hi
        invariant
            lo < hi,
            hi <= 0x100_0000_0000,
            (lo as int) * (lo as int) <= n as int,
            (n as int) < (hi as int) * (hi as int),
        decreases hi - lo,
    {
        let mid: u128 = lo + (hi - lo) / 2;
        proof {
            assert((mid as int) * (mid as int) <= 0x100_0000_0000 * 0x100_0000_0000)
                by (nonlinear_arith)
                requires
                    0 <= mid <= 0x100_0000_0000,
            ;
        }
        if mid * mid <= n {
            lo = mid;
        } else {
            hi = mid;
        }
    }
    proof {
        lemma_isqrt_unique(n as nat, lo as nat);
    }
    lo as i64
}

/// A fixed-point factor in [0, 1] shrinks a nonnegative value:
/// `fmul(r, c)` lies between 0 and `c`.
pub proof fn lemma_fmul_fraction(r: int, c: int)
    requires
        0 <= r <= SCALE as int,
        0 <= c <= i64::MAX as int,
    ensures
        0 <= fmul(r, c) <= c,
{
    assert(0 <= r * c <= (SCALE as int) * c) by (nonlinear_arith)
        requires
            0 <= r <= SCALE as int,
            0 <= c,
    ;
    vstd::arithmetic::div_mod::lemma_div_pos_is_pos(r * c, SCALE as int);
    vstd::arithmetic::div_mod::lemma_div_is_ordered(r * c, (SCALE as int) * c, SCALE as int);
    vstd::arithmetic::div_mod::lemma_div_multiples_vanish(c, SCALE as int);
}

/// `fmul` is monotone in its second argument over nonnegative values.
pub proof fn lemma_fmul_mono(a: int, b1: int, b2: int)
    requires
        a >= 0,
        0 <= b1 <= b2,
    ensures
        0 <= fmul(a, b1) <= fmul(a, b2),
{
    assert(0 <= a * b1 <= a * b2) by (nonlinear_arith)
        requires
            a >= 0,
            0 <= b1 <= b2,
    ;
    vstd::arithmetic::div_mod::lemma_div_pos_is_pos(a * b1, SCALE as int);
    vstd::arithmetic::div_mod::lemma_div_is_ordered(a * b1, a * b2, SCALE as int);
}

/// The sine over the half turn [0, pi].
fn sin_half(x: i64) -> (r: i64)
    requires
        0 <= x <= PI_FP,
    ensures
        r as int == sin_half_s(x as int),
{
    let a: i64 = fp_mul(x, PI_FP - x);
    let num: i64 = fp_scale(16, a);
    let pp: i64 = fp_mul(PI_FP, PI_FP);
    let den: i64 = fp_sub(fp_scale(5, pp), fp_scale(4, a));
    if den > 0 {
        fp_div(num, den)
    } else {
        0
    }
}

/// The sine over the full turn [0, 2 pi].
pub fn fp_sin(x: i64) -> (r: i64)
    requires
        0 <= x <= TAU_FP,
    ensures
        r as int == sin_s(x as int),
{
    if x <= PI_FP {
        sin_half(x)
    } else {
        fp_neg(sin_half(x - PI_FP))
    }
}

/// The cosine over the full turn [0, 2 pi].
pub fn fp_cos(x: i64) -> (r: i64)
    requires
        0 <= x <= TAU_FP,
    ensures
        r as int == cos_s(x as int),
{
    let s: i64 = x + HALF_PI_FP;
    if s > TAU_FP {
        fp_sin(s - TAU_FP)
    } else {
        fp_sin(s)
    }
}

} // verus!
