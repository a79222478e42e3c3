//! Signed fixed-point arithmetic with 32 fractional bits.
//!
//! A value `x: i64` stands for the real number `x / 2^32`. Products and
//! quotients are computed through 128-bit intermediates and truncated toward
//! zero, so a multiplication by a factor of magnitude at most one never
//! increases a value's magnitude.

use vstd::prelude::*;

verus! {

/// The fixed-point representation of one: 2^32.
pub const SCALE: i64 = 0x1_0000_0000;

/// Largest operand magnitude accepted by `fx_mul` and `fx_div` (2^46,
/// about 16384 in real units). Keeps 128-bit intermediates far from overflow.
pub const FX_LIM: i64 = 0x4000_0000_0000;

/// Magnitude of an integer.
pub open spec fn spec_abs(x: int) -> int {
    if x >= 0 {
        x
    } else {
        -x
    }
}

/// Fixed-point product, truncated toward zero.
#[verifier::opaque]
pub open spec fn spec_fx_mul(a: int, b: int) -> int {
    let p = a * b;
    if p >= 0 {
        p / (SCALE as int)
    } else {
        -((-p) / (SCALE as int))
    }
}

/// Fixed-point quotient (b > 0), truncated toward zero.
#[verifier::opaque]
pub open spec fn spec_fx_div(a: int, b: int) -> int {
    if a >= 0 {
        (a * (SCALE as int)) / b
    } else {
        -(((-a) * (SCALE as int)) / b)
    }
}

/// Clamp to a closed interval.
pub open spec fn spec_clamp(x: int, lo: int, hi: int) -> int {
    if x < lo {
        lo
    } else if x > hi {
        hi
    } else {
        x
    }
}

/// Fixed-point multiply: `(a * b) / 2^32`, truncated toward zero.
pub fn fx_mul(a: i64, b: i64) -> (r: i64)
    requires
        -FX_LIM <= a <= FX_LIM,
        -FX_LIM <= b <= FX_LIM,
    ensures
        r == spec_fx_mul(a as int, b as int),
        spec_abs(r as int) * (SCALE as int) <= spec_abs(a as int) * spec_abs(b as int),
        -SCALE <= b <= SCALE ==> spec_abs(r as int) <= spec_abs(a as int),
        -SCALE <= a <= SCALE ==> spec_abs(r as int) <= spec_abs(b as int),
        a >= 0 && b >= 0 ==> r >= 0,
        a >= 0 && b <= 0 ==> r <= 0,
        a <= 0 && b >= 0 ==> r <= 0,
{
    proof {
        reveal(spec_fx_mul);
    }
    let neg = (a < 0) != (b < 0);
    let ma: u64 = if a < 0 {
        (-a) as u64
    } else {
        a as u64
    };
    let mb: u64 = if b < 0 {
        (-b) as u64
    } else {
        b as u64
    };
    assert(ma == spec_abs(a as int) && mb == spec_abs(b as int));
    assert((ma as u128) * (mb as u128) <= 0x1000_0000_0000_0000_0000_0000 as u128)
        by (nonlinear_arith)
        requires
            ma <= 0x4000_0000_0000 as u64,
            mb <= 0x4000_0000_0000 as u64,
    ;
    let p: u128 = (ma as u128) * (mb as u128);
    assert(p == spec_abs(a as int) * spec_abs(b as int)) by (nonlinear_arith)
        requires
            ma == spec_abs(a as int),
            mb == spec_abs(b as int),
            p == (ma as u128) * (mb as u128),
    ;
    let q: u128 = p / (SCALE as u128);
    assert(q <= p) by (nonlinear_arith)
        requires
            q == p / (0x1_0000_0000 as u128),
    ;
    assert(q * (SCALE as int) <= p) by (nonlinear_arith)
        requires
            q == p / (0x1_0000_0000 as u128),
    ;
    assert(p <= 0x1000_0000_0000_0000_0000_0000 as u128) by (nonlinear_arith)
        requires
            ma <= FX_LIM,
            mb <= FX_LIM,
            p == (ma as u128) * (mb as u128),
    ;
    assert(q <= 0x1000_0000_0000_0000 as u128) by (nonlinear_arith)
        requires
            p <= 0x1000_0000_0000_0000_0000_0000 as u128,
            q == p / (0x1_0000_0000 as u128),
    ;
    let qi: i64 = q as i64;
    proof {
        assert(spec_abs((a as int) * (b as int)) == spec_abs(a as int) * spec_abs(b as int))
            by (nonlinear_arith);
        if a >= 0 && b >= 0 {
            assert((a as int) * (b as int) >= 0) by (nonlinear_arith)
                requires
                    a >= 0,
                    b >= 0,
            ;
        }
        if a <= 0 && b <= 0 {
            assert((a as int) * (b as int) >= 0) by (nonlinear_arith)
                requires
                    a <= 0,
                    b <= 0,
            ;
        }
        if a >= 0 && b <= 0 {
            assert((a as int) * (b as int) <= 0) by (nonlinear_arith)
                requires
                    a >= 0,
                    b <= 0,
            ;
        }
        if a <= 0 && b >= 0 {
            assert((a as int) * (b as int) <= 0) by (nonlinear_arith)
                requires
                    a <= 0,
                    b >= 0,
            ;
        }
        if -SCALE <= b <= SCALE {
            assert(p <= ma * (SCALE as u64)) by (nonlinear_arith)
                requires
                    mb <= SCALE as u64,
                    p == (ma as u128) * (mb as u128),
            ;
            assert(q <= ma) by (nonlinear_arith)
                requires
                    p <= (ma as u128) * (0x1_0000_0000 as u128),
                    q == p / (0x1_0000_0000 as u128),
            ;
        }
        if -SCALE <= a <= SCALE {
            assert(p <= mb * (SCALE as u64)) by (nonlinear_arith)
                requires
                    ma <= SCALE as u64,
                    p == (ma as u128) * (mb as u128),
            ;
            assert(q <= mb) by (nonlinear_arith)
                requires
                    p <= (mb as u128) * (0x1_0000_0000 as u128),
                    q == p / (0x1_0000_0000 as u128),
            ;
        }
    }
    if neg {
        -qi
    } else {
        qi
    }
}

/// Fixed-point divide: `(a * 2^32) / b` for `b > 0`, truncated toward zero.
pub fn fx_div(a: i64, b: i64) -> (r: i64)
    requires
        -FX_LIM <= a <= FX_LIM,
        1 <= b,
        spec_abs(a as int) * (SCALE as int) / (b as int) <= 0x1000_0000_0000_0000,
    ensures
        r == spec_fx_div(a as int, b as int),
        spec_abs(r as int) == spec_abs(a as int) * (SCALE as int) / (b as int),
        b >= SCALE ==> spec_abs(r as int) <= spec_abs(a as int),
        a >= 0 ==> r >= 0,
        a <= 0 ==> r <= 0,
{
    proof {
        reveal(spec_fx_div);
    }
    let neg = a < 0;
    let ma: u64 = if a < 0 {
        (-a) as u64
    } else {
        a as u64
    };
    assert(ma == spec_abs(a as int));
    let p: u128 = (ma as u128) * (SCALE as u128);
    let q: u128 = p / (b as u128);
    assert(q == spec_abs(a as int) * (SCALE as int) / (b as int));
    proof {
        if b >= SCALE {
            assert(q <= ma) by (nonlinear_arith)
                requires
                    b >= 0x1_0000_0000,
                    p == (ma as u128) * (0x1_0000_0000 as u128),
                    q == p / (b as u128),
            ;
        }
    }
    let qi: i64 = q as i64;
    if neg {
        -qi
    } else {
        qi
    }
}

/// Exact quotient of a nonnegative value by a positive divisor.
pub fn fx_div_small(a: i64, c: i64) -> (r: i64)
    requires
        0 <= a,
        1 <= c,
    ensures
        r == (a as int) / (c as int),
        0 <= r <= a,
{
    let q = (a as u64) / (c as u64);
    assert(q <= a as u64) by (nonlinear_arith)
        requires
            1 <= c,
            q == (a as u64) / (c as u64),
    ;
    q as i64
}

/// Quotient by a positive divisor, truncated toward zero.
pub open spec fn spec_div_trunc(a: int, c: int) -> int {
    if a >= 0 {
        a / c
    } else {
        -((-a) / c)
    }
}

/// Exact signed quotient by a positive divisor, truncated toward zero.
pub fn fx_div_trunc(a: i64, c: i64) -> (r: i64)
    requires
        1 <= c,
        -0x7fff_ffff_ffff_ffff <= a,
    ensures
        r == spec_div_trunc(a as int, c as int),
        spec_abs(r as int) <= spec_abs(a as int),
        a >= 0 ==> r >= 0,
        a <= 0 ==> r <= 0,
{
    if a >= 0 {
        let q = (a as u64) / (c as u64);
        assert(q <= a as u64) by (nonlinear_arith)
            requires
                1 <= c,
                q == (a as u64) / (c as u64),
        ;
        q as i64
    } else {
        let m = (-a) as u64;
        let q = m / (c as u64);
        assert(q <= m) by (nonlinear_arith)
            requires
                1 <= c,
                q == m / (c as u64),
        ;
        -(q as i64)
    }
}

/// The larger of two values.
pub open spec fn spec_max(a: int, b: int) -> int {
    if a < b {
        b
    } else {
        a
    }
}

/// The larger of two fixed-point values.
pub fn fx_max(a: i64, b: i64) -> (r: i64)
    ensures
        r == spec_max(a as int, b as int),
{
    if a < b {
        b
    } else {
        a
    }
}

/// Clamp a fixed-point value to a closed interval.
pub fn fx_clamp(x: i64, lo: i64, hi: i64) -> (r: i64)
    requires
        lo <= hi,
    ensures
        r == spec_clamp(x as int, lo as int, hi as int),
        lo <= r <= hi,
{
    if x < lo {
        lo
    } else if x > hi {
        hi
    } else {
        x
    }
}

/// Bounds on the operands of a fixed-point product bound the product.
pub proof fn lemma_fx_mul_bound(a: int, b: int, r: int, ca: int, cb: int)
    requires
        spec_abs(r) * (SCALE as int) <= spec_abs(a) * spec_abs(b),
        spec_abs(a) <= ca,
        spec_abs(b) <= cb,
    ensures
        spec_abs(r) * (SCALE as int) <= ca * cb,
{
    assert(spec_abs(a) * spec_abs(b) <= ca * cb) by (nonlinear_arith)
        requires
            0 <= spec_abs(a) <= ca,
            0 <= spec_abs(b) <= cb,
    ;
}

} // verus!
