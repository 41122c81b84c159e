//! The arithmetic of the machine, over the integers.
use vstd::prelude::*;

verus! {

/// The integer that `x` is the 32-bit two's-complement pattern of, read as
/// unsigned: `x` itself where it is not negative, else `x + 2^32`.
pub open spec fn as_unsigned(x: int) -> int {
    if x < 0 {
        x + 0x1_0000_0000
    } else {
        x
    }
}

/// The signed 32-bit integer that is congruent to `x` modulo `2^32`.
pub open spec fn wrap_i32(x: int) -> i32 {
    let low = x % 0x1_0000_0000;
    if low >= 0x8000_0000 {
        (low - 0x1_0000_0000) as i32
    } else {
        low as i32
    }
}

/// The absolute value of `x`.
pub open spec fn magnitude(x: int) -> int {
    if x < 0 {
        -x
    } else {
        x
    }
}

/// The quotient of `a` by `b`, rounded toward zero. Meant for `b != 0`.
pub open spec fn truncated_quotient(a: int, b: int) -> int {
    let q = magnitude(a) / magnitude(b);
    if (a < 0) != (b < 0) {
        -q
    } else {
        q
    }
}

/// What is left of `a` after `truncated_quotient(a, b)` times `b`. Meant for
/// `b != 0`.
pub open spec fn truncated_remainder(a: int, b: int) -> int {
    let r = magnitude(a) % magnitude(b);
    if a < 0 {
        -r
    } else {
        r
    }
}

/// Wrapping leaves a number that fits in 32 bits as it is.
pub proof fn wrap_keeps_what_fits(x: int)
    requires
        i32::MIN <= x <= i32::MAX,
    ensures
        wrap_i32(x) == x,
{
}

/// Wrapping changes a number by a multiple of `2^32`.
pub proof fn wrap_is_congruent(x: int)
    ensures
        (wrap_i32(x) - x) % 0x1_0000_0000 == 0,
{
}

/// Truncated division is division: quotient times divisor plus remainder
/// gives the dividend, the remainder is smaller in magnitude than the
/// divisor, and it is zero or has the sign of the dividend.
pub proof fn truncated_division_divides(a: int, b: int)
    requires
        b != 0,
    ensures
        a == truncated_quotient(a, b) * b + truncated_remainder(a, b),
        magnitude(truncated_remainder(a, b)) < magnitude(b),
        a >= 0 ==> truncated_remainder(a, b) >= 0,
        a <= 0 ==> truncated_remainder(a, b) <= 0,
{
    let n = magnitude(a);
    let d = magnitude(b);
    let q = n / d;
    let r = n % d;
    assert(n == q * d + r && 0 <= r < d) by (nonlinear_arith)
        requires
            d > 0,
            q == n / d,
            r == n % d,
    ;
    assert(a == truncated_quotient(a, b) * b + truncated_remainder(a, b)) by (nonlinear_arith)
        requires
            n == q * d + r,
            n == magnitude(a),
            d == magnitude(b),
            b != 0,
            truncated_quotient(a, b) == (if (a < 0) != (b < 0) {
                -q
            } else {
                q
            }),
            truncated_remainder(a, b) == (if a < 0 {
                -r
            } else {
                r
            }),
    ;
}

/// No other pair of integers divides `a` by `b` in the way that
/// [`truncated_division_divides`] describes.
pub proof fn truncated_division_is_unique(a: int, b: int, q: int, r: int)
    requires
        b != 0,
        a == q * b + r,
        magnitude(r) < magnitude(b),
        a >= 0 ==> r >= 0,
        a <= 0 ==> r <= 0,
    ensures
        q == truncated_quotient(a, b),
        r == truncated_remainder(a, b),
{
    truncated_division_divides(a, b);
    let tq = truncated_quotient(a, b);
    let tr = truncated_remainder(a, b);
    assert(q == tq) by (nonlinear_arith)
        requires
            b != 0,
            a == q * b + r,
            a == tq * b + tr,
            -magnitude(b) < r - tr < magnitude(b),
            magnitude(b) == b || magnitude(b) == -b,
    ;
    assert(r == tr) by (nonlinear_arith)
        requires
            q == tq,
            a == q * b + r,
            a == tq * b + tr,
    ;
}

/// Of two 32-bit integers the remainder always fits in 32 bits, and so does
/// the quotient, but for `i32::MIN / -1`.
pub proof fn lemma_truncated_division_bounds(a: int, b: int)
    requires
        b != 0,
        i32::MIN <= a <= i32::MAX,
        i32::MIN <= b <= i32::MAX,
    ensures
        magnitude(truncated_quotient(a, b)) <= magnitude(a),
        !(a == i32::MIN && b == -1) ==> i32::MIN <= truncated_quotient(a, b) <= i32::MAX,
        -0x8000_0000 < truncated_remainder(a, b) < 0x8000_0000,
{
    let n = magnitude(a);
    let d = magnitude(b);
    assert(0 <= n / d <= n && 0 <= n % d < d && (d > 1 ==> n / d < n || n == 0))
        by (nonlinear_arith)
        requires
            n >= 0,
            d > 0,
    ;
}

/// What `/` and `%` of specifications, which keep the remainder from being
/// negative, give for a negative divisor, in terms of its magnitude.
pub proof fn lemma_negative_divisor(n: int, d: int)
    requires
        n >= 0,
        d < 0,
    ensures
        n / d == -(n / (-d)),
        n % d == n % (-d),
{
    let e = -d;
    let q = n / e;
    let r = n % e;
    assert(n == q * e + r && 0 <= r < e) by (nonlinear_arith)
        requires
            e > 0,
            q == n / e,
            r == n % e,
    ;
    assert(n == (-q) * d + r) by (nonlinear_arith)
        requires
            n == q * e + r,
            e == -d,
    ;
    assert(n / d == -q && n % d == r) by (nonlinear_arith)
        requires
            n == (-q) * d + r,
            0 <= r < -d,
            d < 0,
    ;
}

} // verus!
