//! Fixed-point approximations of the transcendental functions the synth
//! needs: a decaying exponential, a base-two exponential and logarithm, a
//! fractional power, a quarter-wave sine, an integer square root and a soft
//! saturator.
//!
//! Every function has an exact functional contract against a spec-level
//! mirror of its own computation, so the whole audio path is a provably
//! deterministic function of its inputs.

use vstd::prelude::*;
use vstd::arithmetic::div_mod::{
    lemma_div_is_ordered, lemma_div_is_ordered_by_denominator,
    lemma_fundamental_div_mod_converse_div, lemma_fundamental_div_mod_converse_mod,
};
use crate::fixed::{SCALE, FX_LIM, fx_mul, fx_div, fx_div_small, fx_clamp, lemma_fx_mul_bound};
use crate::fixed::{spec_abs, spec_fx_mul, spec_fx_div, spec_clamp};

verus! {

/// e^-1 in fixed point.
pub const EXP_N1: i64 = 1580030169;

/// e^-2 in fixed point.
pub const EXP_N2: i64 = 581260615;

/// e^-4 in fixed point.
pub const EXP_N4: i64 = 78665070;

/// e^-8 in fixed point.
pub const EXP_N8: i64 = 1440801;

/// e^-16 in fixed point.
pub const EXP_N16: i64 = 483;

/// Degree-five alternating series for e^-g, valid for g in [0, SCALE/16].
pub open spec fn spec_exp_taylor_neg(g: int) -> int {
    let t2 = spec_fx_mul(g, g);
    let t3 = spec_fx_mul(t2, g);
    let t4 = spec_fx_mul(t3, g);
    let t5 = spec_fx_mul(t4, g);
    (SCALE as int) - g + t2 / 2 - t3 / 6 + t4 / 24 - t5 / 120
}

fn exp_taylor_neg(g: i64) -> (r: i64)
    requires
        0 <= g <= SCALE / 16,
    ensures
        r == spec_exp_taylor_neg(g as int),
        0 <= r <= SCALE,
        g >= 1 ==> r < SCALE,
{
    let t2 = fx_mul(g, g);
    let t3 = fx_mul(t2, g);
    let t4 = fx_mul(t3, g);
    let t5 = fx_mul(t4, g);
    let h2 = fx_div_small(t2, 2);
    let h3 = fx_div_small(t3, 6);
    let h4 = fx_div_small(t4, 24);
    let h5 = fx_div_small(t5, 120);
    proof {
        lemma_div_is_ordered(t4 as int, t3 as int, 24);
        lemma_div_is_ordered_by_denominator(t3 as int, 6, 24);
        if g >= 1 {
            assert(g * g <= g * 0x1000_0000) by (nonlinear_arith)
                requires
                    0 <= g <= 0x1000_0000,
            ;
            assert(t2 * 16 <= g) by (nonlinear_arith)
                requires
                    t2 * 0x1_0000_0000 <= g * 0x1000_0000,
                    0 <= t2,
            ;
        }
    }
    SCALE - g + h2 - h3 + h4 - h5
}

/// e^-f for a fractional f in [0, SCALE): series on f/16, then four squarings.
pub open spec fn spec_exp_frac_neg(f: int) -> int {
    let p0 = spec_exp_taylor_neg(f / 16);
    let p1 = spec_fx_mul(p0, p0);
    let p2 = spec_fx_mul(p1, p1);
    let p3 = spec_fx_mul(p2, p2);
    spec_fx_mul(p3, p3)
}

fn exp_frac_neg(f: i64) -> (r: i64)
    requires
        0 <= f < SCALE,
    ensures
        r == spec_exp_frac_neg(f as int),
        0 <= r <= SCALE,
        f == 0 ==> r == SCALE,
        f >= 16 ==> r < SCALE,
{
    let g = ((f as u64) / 16) as i64;
    let p0 = exp_taylor_neg(g);
    proof {
        if f == 0 {
            reveal(crate::fixed::spec_fx_mul);
            assert(spec_fx_mul(0, 0) == 0);
            assert(spec_exp_taylor_neg(0) == SCALE);
            assert(p0 == SCALE);
            assert((0x1_0000_0000int * 0x1_0000_0000) / 0x1_0000_0000 == 0x1_0000_0000)
                by (nonlinear_arith);
        }
    }
    let p1 = fx_mul(p0, p0);
    let p2 = fx_mul(p1, p1);
    let p3 = fx_mul(p2, p2);
    fx_mul(p3, p3)
}

/// Multiplies p by e^-k for an integer k in [0, 23), one constant per bit.
pub open spec fn spec_exp_int_neg(k: int, p: int) -> int {
    let r1 = if k % 2 == 1 {
        spec_fx_mul(p, EXP_N1 as int)
    } else {
        p
    };
    let k2 = k / 2;
    let r2 = if k2 % 2 == 1 {
        spec_fx_mul(r1, EXP_N2 as int)
    } else {
        r1
    };
    let k4 = k2 / 2;
    let r4 = if k4 % 2 == 1 {
        spec_fx_mul(r2, EXP_N4 as int)
    } else {
        r2
    };
    let k8 = k4 / 2;
    let r8 = if k8 % 2 == 1 {
        spec_fx_mul(r4, EXP_N8 as int)
    } else {
        r4
    };
    let k16 = k8 / 2;
    if k16 % 2 == 1 {
        spec_fx_mul(r8, EXP_N16 as int)
    } else {
        r8
    }
}

fn exp_int_neg(k: u64, p: i64) -> (r: i64)
    requires
        k <= 22,
        0 <= p <= SCALE,
    ensures
        r == spec_exp_int_neg(k as int, p as int),
        0 <= r <= SCALE,
        k == 0 ==> r == p,
        k >= 1 ==> r <= EXP_N1,
{
    let r1 = if k % 2 == 1 {
        fx_mul(p, EXP_N1)
    } else {
        p
    };
    let k2 = k / 2;
    let r2 = if k2 % 2 == 1 {
        fx_mul(r1, EXP_N2)
    } else {
        r1
    };
    let k4 = k2 / 2;
    let r4 = if k4 % 2 == 1 {
        fx_mul(r2, EXP_N4)
    } else {
        r2
    };
    let k8 = k4 / 2;
    let r8 = if k8 % 2 == 1 {
        fx_mul(r4, EXP_N8)
    } else {
        r4
    };
    let k16 = k8 / 2;
    if k16 % 2 == 1 {
        fx_mul(r8, EXP_N16)
    } else {
        r8
    }
}

/// e^-x for a nonnegative fixed-point x; 0 once x reaches 23 (e^-23 is
/// below the representable resolution).
#[verifier::opaque]
pub open spec fn spec_exp_neg(x: int) -> int {
    if x >= 23 * (SCALE as int) {
        0
    } else {
        spec_exp_int_neg(x / (SCALE as int), spec_exp_frac_neg(x % (SCALE as int)))
    }
}

/// Decaying exponential e^-x.
pub fn exp_neg(x: i64) -> (r: i64)
    requires
        0 <= x,
    ensures
        r == spec_exp_neg(x as int),
        0 <= r <= SCALE,
        x == 0 ==> r == SCALE,
        x >= 16 ==> r < SCALE,
{
    proof {
        reveal(spec_exp_neg);
    }
    if x >= 23 * SCALE {
        0
    } else {
        let k = (x as u64) / (SCALE as u64);
        let f = ((x as u64) % (SCALE as u64)) as i64;
        proof {
            lemma_div_is_ordered(x as int, 23 * (SCALE as int) - 1, SCALE as int);
            assert((23 * 0x1_0000_0000int - 1) / 0x1_0000_0000int == 22) by (nonlinear_arith);
        }
        let p = exp_frac_neg(f);
        exp_int_neg(k, p)
    }
}

/// ln 2 in fixed point.
pub const LN_2: i64 = 2977044472;

/// Degree-five series for e^g, valid for g in [0, SCALE/16].
pub open spec fn spec_exp_taylor_pos(g: int) -> int {
    let t2 = spec_fx_mul(g, g);
    let t3 = spec_fx_mul(t2, g);
    let t4 = spec_fx_mul(t3, g);
    let t5 = spec_fx_mul(t4, g);
    (SCALE as int) + g + t2 / 2 + t3 / 6 + t4 / 24 + t5 / 120
}

fn exp_taylor_pos(g: i64) -> (r: i64)
    requires
        0 <= g <= SCALE / 16,
    ensures
        r == spec_exp_taylor_pos(g as int),
        SCALE <= r <= 2 * SCALE,
        g == 0 ==> r == SCALE,
{
    let t2 = fx_mul(g, g);
    let t3 = fx_mul(t2, g);
    let t4 = fx_mul(t3, g);
    let t5 = fx_mul(t4, g);
    let h2 = fx_div_small(t2, 2);
    let h3 = fx_div_small(t3, 6);
    let h4 = fx_div_small(t4, 24);
    let h5 = fx_div_small(t5, 120);
    SCALE + g + h2 + h3 + h4 + h5
}

/// 2^f for a fractional f in [0, SCALE): e^(f ln 2) by series and four
/// squarings, clamped into [1, 2].
pub open spec fn spec_exp2_frac(f: int) -> int {
    let y = spec_fx_mul(f, LN_2 as int);
    let p0 = spec_exp_taylor_pos(y / 16);
    let p1 = spec_fx_mul(p0, p0);
    let p2 = spec_fx_mul(p1, p1);
    let p3 = spec_fx_mul(p2, p2);
    spec_clamp(spec_fx_mul(p3, p3), SCALE as int, 2 * (SCALE as int))
}

fn exp2_frac(f: i64) -> (r: i64)
    requires
        0 <= f < SCALE,
    ensures
        r == spec_exp2_frac(f as int),
        SCALE <= r <= 2 * SCALE,
        f == 0 ==> r == SCALE,
{
    let y = fx_mul(f, LN_2);
    let g = ((y as u64) / 16) as i64;
    let p0 = exp_taylor_pos(g);
    proof {
        if f == 0 {
            reveal(crate::fixed::spec_fx_mul);
            assert(spec_fx_mul(0, LN_2 as int) == 0);
            assert(p0 == SCALE);
            assert((0x1_0000_0000int * 0x1_0000_0000) / 0x1_0000_0000 == 0x1_0000_0000)
                by (nonlinear_arith);
        }
        assert(p0 * p0 <= 0x2_0000_0000int * 0x2_0000_0000) by (nonlinear_arith)
            requires
                0 <= p0 <= 0x2_0000_0000,
        ;
    }
    let p1 = fx_mul(p0, p0);
    proof {
        assert(p1 * p1 <= 0x4_0000_0000int * 0x4_0000_0000) by (nonlinear_arith)
            requires
                0 <= p1 <= 0x4_0000_0000,
        ;
    }
    let p2 = fx_mul(p1, p1);
    proof {
        assert(p2 * p2 <= 0x10_0000_0000int * 0x10_0000_0000) by (nonlinear_arith)
            requires
                0 <= p2 <= 0x10_0000_0000,
        ;
    }
    let p3 = fx_mul(p2, p2);
    let p4 = fx_mul(p3, p3);
    fx_clamp(p4, SCALE, 2 * SCALE)
}

/// 2^k for small k, as a plain integer.
fn pow2_small(e: u64) -> (r: u64)
    requires
        e <= 62,
    ensures
        r == vstd::arithmetic::power2::pow2(e as nat),
        r >= 1,
{
    proof {
        vstd::arithmetic::power2::lemma2_to64();
        vstd::arithmetic::power2::lemma_pow2_pos(e as nat);
    }
    let mut r: u64 = 1;
    let mut i: u64 = 0;
    while i < e
        invariant
            i <= e <= 62,
            r == vstd::arithmetic::power2::pow2(i as nat),
        decreases e - i,
    {
        proof {
            vstd::arithmetic::power2::lemma2_to64();
            vstd::arithmetic::power2::lemma2_to64_rest();
            if (i as nat) < 62 {
                vstd::arithmetic::power2::lemma_pow2_strictly_increases(i as nat, 62);
            }
            vstd::arithmetic::power2::lemma_pow2_unfold((i + 1) as nat);
        }
        r = r * 2;
        i = i + 1;
    }
    r
}

/// 2^(x/SCALE) for a signed fixed-point x, saturating at 2^6 upward and at
/// 0 far downward.
#[verifier::opaque]
pub open spec fn spec_exp2(x: int) -> int {
    let n = x / (SCALE as int);
    let p = spec_exp2_frac(x % (SCALE as int));
    if n >= 6 {
        64 * (SCALE as int)
    } else if n >= 0 {
        p * vstd::arithmetic::power2::pow2(n as nat)
    } else if n <= -34 {
        0
    } else {
        p / (vstd::arithmetic::power2::pow2((-n) as nat) as int)
    }
}

/// Base-two exponential.
pub fn exp2(x: i64) -> (r: i64)
    requires
        -FX_LIM <= x <= FX_LIM,
    ensures
        r == spec_exp2(x as int),
        0 <= r <= 64 * SCALE,
        x <= 0 ==> r <= SCALE,
        x == 0 ==> r == SCALE,
        x <= 4 * SCALE ==> r <= 32 * SCALE,
{
    proof {
        reveal(spec_exp2);
        vstd::arithmetic::power2::lemma2_to64();
    }
    let n: i64;
    let f: i64;
    if x >= 0 {
        n = ((x as u64) / (SCALE as u64)) as i64;
        f = ((x as u64) % (SCALE as u64)) as i64;
    } else {
        let m = (-x) as u64;
        let nq = m / (SCALE as u64);
        let rem = m % (SCALE as u64);
        if rem == 0 {
            n = -(nq as i64);
            f = 0;
        } else {
            n = -(nq as i64) - 1;
            f = (SCALE as u64 - rem) as i64;
        }
        proof {
            vstd::arithmetic::div_mod::lemma_fundamental_div_mod(m as int, SCALE as int);
            assert(m as int == (nq as int) * (SCALE as int) + (rem as int));
            assert(x as int == (n as int) * (SCALE as int) + (f as int));
            lemma_fundamental_div_mod_converse_div(
                x as int, SCALE as int, n as int, f as int);
            lemma_fundamental_div_mod_converse_mod(
                x as int, SCALE as int, n as int, f as int);
        }
    }
    assert(n == (x as int) / (SCALE as int) && f == (x as int) % (SCALE as int));
    proof {
        if x < 0 {
            lemma_div_is_ordered(x as int, -1, SCALE as int);
            assert((-1int) / (SCALE as int) == -1) by (nonlinear_arith);
            assert(n <= -1);
        }
    }
    let p = exp2_frac(f);
    proof {
        if x <= 4 * SCALE {
            lemma_div_is_ordered(x as int, 4 * (SCALE as int), SCALE as int);
            assert((4 * 0x1_0000_0000int) / 0x1_0000_0000 == 4) by (nonlinear_arith);
        }
    }
    if n >= 6 {
        64 * SCALE
    } else if n >= 0 {
        let m = pow2_small(n as u64);
        proof {
            if x == 0 {
                assert(n == 0 && f == 0);
                assert(p == SCALE);
                assert(m == 1);
            }
            if (n as nat) < 5 {
                vstd::arithmetic::power2::lemma_pow2_strictly_increases(n as nat, 5);
            }
            assert(m <= 32);
            if n <= 4 {
                if (n as nat) < 4 {
                    vstd::arithmetic::power2::lemma_pow2_strictly_increases(n as nat, 4);
                }
                assert(m <= 16);
            }
            assert(p * m <= 0x2_0000_0000int * 32) by (nonlinear_arith)
                requires
                    0 <= p <= 0x2_0000_0000,
                    0 <= m <= 32,
            ;
            if n <= 4 {
                assert(p * m <= 0x2_0000_0000int * 16) by (nonlinear_arith)
                    requires
                        0 <= p <= 0x2_0000_0000,
                        0 <= m <= 16,
                ;
            }
        }
        p * (m as i64)
    } else if n <= -34 {
        0
    } else {
        let d = pow2_small((-n) as u64);
        proof {
            vstd::arithmetic::power2::lemma_pow2_strictly_increases(0, (-n) as nat);
            assert(d >= 2);
            lemma_div_is_ordered(p as int, 2 * (SCALE as int), d as int);
            lemma_div_is_ordered_by_denominator(2 * (SCALE as int), 2, d as int);
        }
        ((p as u64) / d) as i64
    }
}

/// How many doublings bring v up into [SCALE, 2*SCALE).
pub open spec fn spec_norm_up(v: int) -> nat
    decreases 2 * (SCALE as int) - v,
        when 1 <= v
{
    if v >= SCALE {
        0
    } else {
        1 + spec_norm_up(2 * v)
    }
}

/// How many halvings bring v down below 2*SCALE.
pub open spec fn spec_norm_down(v: int) -> nat
    decreases v,
        when 1 <= v
{
    if v < 2 * (SCALE as int) {
        0
    } else {
        1 + spec_norm_down(v / 2)
    }
}

/// The value v reaches after those halvings.
pub open spec fn spec_shrink(v: int) -> int
    decreases v,
        when 1 <= v
{
    if v < 2 * (SCALE as int) {
        v
    } else {
        spec_shrink(v / 2)
    }
}

/// One round of the digit-by-digit fractional log: square the mantissa,
/// record whether it crossed two. Returns (bits, mantissa) after i rounds.
pub open spec fn spec_log_bits(m: int, i: nat) -> (int, int)
    decreases i,
{
    if i == 0 {
        (0, m)
    } else {
        let prev = spec_log_bits(m, (i - 1) as nat);
        let s = spec_fx_mul(prev.1, prev.1);
        if s >= 2 * (SCALE as int) {
            (2 * prev.0 + 1, s / 2)
        } else {
            (2 * prev.0, s)
        }
    }
}

/// log2(v/SCALE) in fixed point: normalize into [1, 2), then thirty
/// fractional digits by repeated squaring.
#[verifier::opaque]
pub open spec fn spec_log2(v: int) -> int {
    let m = if v >= SCALE {
        spec_shrink(v)
    } else {
        v * vstd::arithmetic::power2::pow2(spec_norm_up(v))
    };
    let e = if v >= SCALE {
        spec_norm_down(v) as int
    } else {
        -(spec_norm_up(v) as int)
    };
    e * (SCALE as int) + 4 * spec_log_bits(m, 30).0
}

/// A mantissa of exactly one yields only zero digits.
proof fn lemma_log_bits_one(i: nat)
    ensures
        spec_log_bits(SCALE as int, i) == (0int, SCALE as int),
    decreases i,
{
    if i > 0 {
        lemma_log_bits_one((i - 1) as nat);
        reveal(crate::fixed::spec_fx_mul);
        assert((0x1_0000_0000int * 0x1_0000_0000) / 0x1_0000_0000 == 0x1_0000_0000)
            by (nonlinear_arith);
        assert(spec_fx_mul(SCALE as int, SCALE as int) == SCALE);
    }
}

/// The count of doublings that lands in [1, 2) is unique.
proof fn lemma_norm_up_unique(v: int, k: nat)
    requires
        1 <= v,
        SCALE <= v * vstd::arithmetic::power2::pow2(k),
        v * vstd::arithmetic::power2::pow2(k) < 2 * SCALE,
    ensures
        k == spec_norm_up(v),
    decreases 2 * (SCALE as int) - v,
{
    vstd::arithmetic::power2::lemma2_to64();
    if v >= SCALE {
        if k >= 1 {
            vstd::arithmetic::power2::lemma_pow2_strictly_increases(0, k);
            assert(v * vstd::arithmetic::power2::pow2(k) >= 2 * 0x1_0000_0000int)
                by (nonlinear_arith)
                requires
                    v >= 0x1_0000_0000int,
                    vstd::arithmetic::power2::pow2(k) >= 2,
            ;
        }
        assert(k == 0);
    } else {
        if k == 0 {
            assert(v * vstd::arithmetic::power2::pow2(0) < SCALE);
            assert(false);
        }
        vstd::arithmetic::power2::lemma_pow2_unfold(k);
        assert(v * vstd::arithmetic::power2::pow2(k)
            == (2 * v) * vstd::arithmetic::power2::pow2((k - 1) as nat)) by (nonlinear_arith)
            requires
                vstd::arithmetic::power2::pow2(k)
                    == 2 * vstd::arithmetic::power2::pow2((k - 1) as nat),
        ;
        lemma_norm_up_unique(2 * v, (k - 1) as nat);
    }
}

/// Base-two logarithm of a positive fixed-point value.
pub fn log2_fx(v: i64) -> (r: i64)
    requires
        1 <= v <= FX_LIM,
    ensures
        r == spec_log2(v as int),
        -32 * SCALE <= r <= 16 * SCALE,
        v <= SCALE ==> r <= 0,
        v >= SCALE ==> r >= 0,
{
    proof {
        reveal(spec_log2);
        vstd::arithmetic::power2::lemma2_to64();
        assert(v * vstd::arithmetic::power2::pow2(0) == v) by (nonlinear_arith)
            requires
                vstd::arithmetic::power2::pow2(0) == 1,
        ;
    }
    let mut m: i64 = v;
    let mut e: i64 = 0;
    while m < SCALE
        invariant
            1 <= m,
            1 <= v <= FX_LIM,
            m == v * vstd::arithmetic::power2::pow2(e as nat),
            0 <= e <= 32,
            e > 0 ==> m < 2 * SCALE,
            e == 0 ==> m == v,
        decreases 2 * SCALE - m,
    {
        proof {
            vstd::arithmetic::power2::lemma2_to64();
            if e == 32 {
                assert(v * vstd::arithmetic::power2::pow2(32)
                    >= vstd::arithmetic::power2::pow2(32)) by (nonlinear_arith)
                    requires
                        v >= 1,
                ;
                assert(false);
            }
            vstd::arithmetic::power2::lemma_pow2_unfold((e + 1) as nat);
            assert((2 * m) == v * (2 * vstd::arithmetic::power2::pow2(e as nat)))
                by (nonlinear_arith)
                requires
                    m == v * vstd::arithmetic::power2::pow2(e as nat),
            ;
        }
        m = m * 2;
        e = e + 1;
    }
    let up = e;
    proof {
        if up > 0 {
            lemma_norm_up_unique(v as int, up as nat);
        }
        if v < SCALE {
            assert(up > 0) by {
                if up == 0 {
                    assert(m == v);
                }
            }
        }
    }
    proof {
        assert(m * vstd::arithmetic::power2::pow2(0) == m) by (nonlinear_arith)
            requires
                vstd::arithmetic::power2::pow2(0) == 1,
        ;
    }
    let mut d: i64 = 0;
    while m >= 2 * SCALE
        invariant
            1 <= m <= FX_LIM,
            0 <= d <= 14,
            1 <= v <= FX_LIM,
            v >= SCALE ==> m >= SCALE,
            v < SCALE ==> up > 0,
            up > 0 ==> SCALE <= m < 2 * SCALE && d == 0,
            up > 0 ==> m == v * vstd::arithmetic::power2::pow2(up as nat),
            up == 0 ==> spec_shrink(v as int) == spec_shrink(m as int),
            up == 0 ==> spec_norm_down(v as int) == d + spec_norm_down(m as int),
            m * vstd::arithmetic::power2::pow2(d as nat) <= FX_LIM,
        decreases m,
    {
        proof {
            vstd::arithmetic::power2::lemma2_to64();
            if d >= 14 {
                vstd::arithmetic::power2::lemma_pow2_strictly_increases(13, d as nat);
                assert(m * vstd::arithmetic::power2::pow2(d as nat)
                    > 0x4000_0000_0000int) by (nonlinear_arith)
                    requires
                        m >= 2 * 0x1_0000_0000int,
                        vstd::arithmetic::power2::pow2(d as nat) > 0x2000,
                ;
                assert(false);
            }
            vstd::arithmetic::power2::lemma_pow2_unfold((d + 1) as nat);
            assert((m / 2) * (2 * vstd::arithmetic::power2::pow2(d as nat))
                <= m * vstd::arithmetic::power2::pow2(d as nat)) by (nonlinear_arith)
                requires
                    m >= 0,
                    vstd::arithmetic::power2::pow2(d as nat) >= 0,
            ;
        }
        m = ((m as u64) / 2) as i64;
        d = d + 1;
    }
    let e_final: i64 = if up > 0 {
        -up
    } else {
        d
    };
    let mant = m;
    proof {
        if up == 0 {
            assert(v >= SCALE);
            assert(spec_shrink(m as int) == m);
            assert(spec_norm_down(m as int) == 0);
            assert(mant == spec_shrink(v as int));
            assert(d == spec_norm_down(v as int));
        } else {
            assert(up == spec_norm_up(v as int));
        }
        assert(SCALE <= mant < 2 * SCALE);
    }
    let mut acc: i64 = 0;
    let mut cur: i64 = mant;
    let mut i: u64 = 0;
    while i < 30
        invariant
            0 <= i <= 30,
            SCALE <= mant < 2 * SCALE,
            SCALE <= cur < 2 * SCALE,
            acc == spec_log_bits(mant as int, i as nat).0,
            cur == spec_log_bits(mant as int, i as nat).1,
            0 <= acc < vstd::arithmetic::power2::pow2(i as nat),
        decreases 30 - i,
    {
        proof {
            vstd::arithmetic::power2::lemma2_to64();
            vstd::arithmetic::power2::lemma_pow2_unfold((i + 1) as nat);
            if (i as nat) < 30 {
                vstd::arithmetic::power2::lemma_pow2_strictly_increases(i as nat, 30);
            }
        }
        let s = fx_mul(cur, cur);
        proof {
            reveal(crate::fixed::spec_fx_mul);
            assert(cur * cur >= 0x1_0000_0000int * 0x1_0000_0000) by (nonlinear_arith)
                requires
                    cur >= 0x1_0000_0000int,
            ;
            assert(cur * cur < 0x2_0000_0000int * 0x2_0000_0000) by (nonlinear_arith)
                requires
                    0 <= cur < 0x2_0000_0000int,
            ;
            assert(s == (cur * cur) / (SCALE as int));
            lemma_div_is_ordered(
                0x1_0000_0000int * 0x1_0000_0000,
                cur * cur,
                SCALE as int,
            );
            assert((0x1_0000_0000int * 0x1_0000_0000) / 0x1_0000_0000 == 0x1_0000_0000)
                by (nonlinear_arith);
            assert(s >= SCALE);
            assert(s * (SCALE as int) < (4 * SCALE) * (SCALE as int) ==> s < 4 * SCALE)
                by (nonlinear_arith);
            assert(s < 4 * SCALE);
        }
        if s >= 2 * SCALE {
            acc = 2 * acc + 1;
            cur = ((s as u64) / 2) as i64;
        } else {
            acc = 2 * acc;
            cur = s;
        }
        i = i + 1;
    }
    proof {
        vstd::arithmetic::power2::lemma2_to64();
    }
    proof {
        vstd::arithmetic::power2::lemma2_to64();
        if v == SCALE {
            lemma_log_bits_one(30);
        }
    }
    e_final * SCALE + 4 * acc
}

/// b^(e/SCALE) for a base b in [0, 1] and a nonnegative exponent.
#[verifier::opaque]
pub open spec fn spec_pow_frac(b: int, e: int) -> int {
    if b == 0 {
        0
    } else {
        spec_exp2(spec_fx_mul(e, spec_log2(b)))
    }
}

/// Fractional power of a base at most one.
pub fn pow_frac(b: i64, e: i64) -> (r: i64)
    requires
        0 <= b <= SCALE,
        0 <= e <= 4 * SCALE,
    ensures
        r == spec_pow_frac(b as int, e as int),
        0 <= r <= SCALE,
        b == SCALE ==> r == SCALE,
        b > 0 && e == 0 ==> r == SCALE,
{
    proof {
        reveal(spec_pow_frac);
    }
    if b == 0 {
        0
    } else {
        let l = log2_fx(b);
        let x = fx_mul(e, l);
        proof {
            assert(spec_abs(e as int) * spec_abs(l as int)
                <= (4 * 0x1_0000_0000int) * (32 * 0x1_0000_0000int)) by (nonlinear_arith)
                requires
                    0 <= e <= 4 * 0x1_0000_0000int,
                    -32 * 0x1_0000_0000int <= l <= 32 * 0x1_0000_0000int,
            ;
            if b == SCALE {
                reveal(crate::fixed::spec_fx_mul);
                assert((e as int) * 0int == 0) by (nonlinear_arith);
                assert(spec_fx_mul(e as int, 0) == 0);
            }
            if e == 0 {
                reveal(crate::fixed::spec_fx_mul);
                assert(0int * (l as int) == 0) by (nonlinear_arith);
                assert(spec_fx_mul(0, l as int) == 0);
            }
        }
        exp2(x)
    }
}

/// 2*pi in fixed point.
pub const TWO_PI: i64 = 26986075409;

/// A quarter turn.
pub const QUARTER_TURN: i64 = 0x4000_0000;

/// Half a turn.
pub const HALF_TURN: i64 = 0x8000_0000;

/// Degree-seven sine series on the first quarter wave, clamped into [0, 1].
/// The argument q is a turn fraction in [0, 1/4].
pub open spec fn spec_quarter_sine(q: int) -> int {
    let x = spec_fx_mul(q, TWO_PI as int);
    let x2 = spec_fx_mul(x, x);
    let x3 = spec_fx_mul(x2, x);
    let x5 = spec_fx_mul(x3, x2);
    let x7 = spec_fx_mul(x5, x2);
    spec_clamp(x - x3 / 6 + x5 / 120 - x7 / 5040, 0, SCALE as int)
}

fn quarter_sine(q: i64) -> (r: i64)
    requires
        0 <= q <= QUARTER_TURN,
    ensures
        r == spec_quarter_sine(q as int),
        0 <= r <= SCALE,
        q == 0 ==> r == 0,
{
    let x = fx_mul(q, TWO_PI);
    proof {
        lemma_fx_mul_bound(q as int, TWO_PI as int, x as int,
            QUARTER_TURN as int, TWO_PI as int);
        assert(x <= 2 * SCALE);
    }
    let x2 = fx_mul(x, x);
    proof {
        lemma_fx_mul_bound(x as int, x as int, x2 as int,
            2 * (SCALE as int), 2 * (SCALE as int));
        assert(x2 <= 4 * SCALE);
    }
    let x3 = fx_mul(x2, x);
    proof {
        lemma_fx_mul_bound(x2 as int, x as int, x3 as int,
            4 * (SCALE as int), 2 * (SCALE as int));
        assert(x3 <= 8 * SCALE);
    }
    let x5 = fx_mul(x3, x2);
    proof {
        lemma_fx_mul_bound(x3 as int, x2 as int, x5 as int,
            8 * (SCALE as int), 4 * (SCALE as int));
        assert(x5 <= 32 * SCALE);
    }
    let x7 = fx_mul(x5, x2);
    proof {
        lemma_fx_mul_bound(x5 as int, x2 as int, x7 as int,
            32 * (SCALE as int), 4 * (SCALE as int));
        assert(x7 <= 128 * SCALE);
    }
    let h3 = fx_div_small(x3, 6);
    let h5 = fx_div_small(x5, 120);
    let h7 = fx_div_small(x7, 5040);
    proof {
        if q == 0 {
            reveal(crate::fixed::spec_fx_mul);
            assert(spec_fx_mul(0, TWO_PI as int) == 0);
            assert(spec_fx_mul(0, 0) == 0);
        }
    }
    fx_clamp(x - h3 + h5 - h7, 0, SCALE)
}

/// A full-turn sine built from the quarter wave by reflection; the second
/// half is the negated first half, so the function is odd around zero and
/// around half a turn.
#[verifier::opaque]
pub open spec fn spec_sin_turn(t: int) -> int {
    if t < HALF_TURN {
        if t < QUARTER_TURN {
            spec_quarter_sine(t)
        } else {
            spec_quarter_sine((HALF_TURN as int) - t)
        }
    } else {
        let u = t - (HALF_TURN as int);
        if u < QUARTER_TURN {
            -spec_quarter_sine(u)
        } else {
            -spec_quarter_sine((HALF_TURN as int) - u)
        }
    }
}

/// Sine of a phase given as a fraction of a turn.
pub fn sin_turn(t: i64) -> (r: i64)
    requires
        0 <= t < SCALE,
    ensures
        r == spec_sin_turn(t as int),
        -SCALE <= r <= SCALE,
{
    proof {
        reveal(spec_sin_turn);
    }
    if t < HALF_TURN {
        if t < QUARTER_TURN {
            quarter_sine(t)
        } else {
            quarter_sine(HALF_TURN - t)
        }
    } else {
        let u = t - HALF_TURN;
        if u < QUARTER_TURN {
            -quarter_sine(u)
        } else {
            -quarter_sine(HALF_TURN - u)
        }
    }
}

/// The integer square root: the unique r with r^2 <= n < (r+1)^2.
pub open spec fn spec_isqrt(n: int) -> int {
    choose|r: int| #![trigger r * r] 0 <= r && r * r <= n < (r + 1) * (r + 1)
}

/// Two integers that both satisfy the square-root characterization of the
/// same value are equal.
proof fn lemma_isqrt_unique(a: int, b: int, n: int)
    requires
        0 <= a,
        0 <= b,
        a * a <= n < (a + 1) * (a + 1),
        b * b <= n < (b + 1) * (b + 1),
    ensures
        a == b,
{
    if a < b {
        assert((a + 1) * (a + 1) <= b * b) by (nonlinear_arith)
            requires
                0 <= a,
                a < b,
        ;
    }
    if b < a {
        assert((b + 1) * (b + 1) <= a * a) by (nonlinear_arith)
            requires
                0 <= b,
                b < a,
        ;
    }
}

/// Integer square root by bisection.
pub fn isqrt_u128(n: u128) -> (r: u64)
    ensures
        r == spec_isqrt(n as int),
        (r as int) * (r as int) <= n,
        n < ((r as int) + 1) * ((r as int) + 1),
{
    let mut lo: u128 = 0;
    let mut hi: u128 = 0x1_0000_0000_0000_0000;
    proof {
        assert((0x1_0000_0000_0000_0000 as int) * (0x1_0000_0000_0000_0000 as int) > n as int)
            by (nonlinear_arith)
            requires
                n <= 0xffff_ffff_ffff_ffff_ffff_ffff_ffff_ffff as u128,
        ;
    }
    while hi - lo > 1
        invariant
            lo < hi <= 0x1_0000_0000_0000_0000,
            (lo as int) * (lo as int) <= n as int,
            (n as int) < (hi as int) * (hi as int),
        decreases hi - lo,
    {
        let mid = lo + (hi - lo) / 2;
        proof {
            assert((mid as int) * (mid as int)
                <= (0x1_0000_0000_0000_0000int - 1) * (0x1_0000_0000_0000_0000int - 1))
                by (nonlinear_arith)
                requires
                    0 <= mid <= 0x1_0000_0000_0000_0000 as u128 - 1,
            ;
        }
        if mid * mid <= n {
            lo = mid;
        } else {
            hi = mid;
        }
    }
    proof {
        let w = choose|r: int| #![trigger r * r] 0 <= r && r * r <= n < (r + 1) * (r + 1);
        assert(0 <= lo as int && (lo as int) * (lo as int) <= n
            < ((lo as int) + 1) * ((lo as int) + 1));
        lemma_isqrt_unique(w, lo as int, n as int);
    }
    lo as u64
}

/// The chosen square root satisfies its own characterization.
pub proof fn lemma_isqrt_exists(n: int)
    requires
        0 <= n,
    ensures
        0 <= spec_isqrt(n),
        spec_isqrt(n) * spec_isqrt(n) <= n,
        n < (spec_isqrt(n) + 1) * (spec_isqrt(n) + 1),
    decreases n,
{
    if n == 0 {
        assert(0 <= 0 && 0int * 0 <= 0 < (0int + 1) * (0int + 1)) by (nonlinear_arith);
    } else {
        lemma_isqrt_exists(n - 1);
        let r = spec_isqrt(n - 1);
        if n < (r + 1) * (r + 1) {
            assert(0 <= r && r * r <= n < (r + 1) * (r + 1));
        } else {
            assert(n == (r + 1) * (r + 1));
            assert((r + 1) * (r + 1) < (r + 2) * (r + 2)) by (nonlinear_arith)
                requires
                    0 <= r,
            ;
            assert(0 <= r + 1 && (r + 1) * (r + 1) <= n < (r + 2) * (r + 2));
        }
    }
}

/// An odd sine over half-turn fractions: sin(p * pi / 2) for p in [-1, 1],
/// rounded down to an even value so that complementary pan positions mirror
/// exactly.
pub open spec fn spec_pan_sin(p: int) -> int {
    if p >= 0 {
        2 * (spec_quarter_sine(spec_fx_mul(p, QUARTER_TURN as int)) / 2)
    } else {
        -(2 * (spec_quarter_sine(spec_fx_mul(-p, QUARTER_TURN as int)) / 2))
    }
}

/// The odd sine used for panning.
pub fn pan_sin(p: i64) -> (r: i64)
    requires
        -SCALE <= p <= SCALE,
    ensures
        r == spec_pan_sin(p as int),
        -SCALE <= r <= SCALE,
        r % 2 == 0,
        p == 0 ==> r == 0,
{
    if p >= 0 {
        let q = quarter_sine(fx_mul(p, QUARTER_TURN));
        let h = ((q as u64) / 2) as i64;
        proof {
            if p == 0 {
                reveal(crate::fixed::spec_fx_mul);
                assert(spec_fx_mul(0, QUARTER_TURN as int) == 0);
            }
        }
        2 * h
    } else {
        let q = quarter_sine(fx_mul(-p, QUARTER_TURN));
        let h = ((q as u64) / 2) as i64;
        -(2 * h)
    }
}

/// The pan sine is odd: opposite pans give opposite values.
pub proof fn lemma_pan_sin_odd(p: int)
    requires
        -SCALE <= p <= SCALE,
    ensures
        spec_pan_sin(-p) == -spec_pan_sin(p),
{
    if p == 0 {
        reveal(crate::fixed::spec_fx_mul);
        assert(spec_fx_mul(0, QUARTER_TURN as int) == 0);
        assert(spec_fx_mul(0, TWO_PI as int) == 0);
        assert(spec_fx_mul(0, 0) == 0);
        assert(spec_quarter_sine(0) == 0);
    }
}

/// The rational soft saturator m(27 + m^2)/(27 + 9 m^2) on magnitudes in
/// [0, 3], clamped into [0, 1].
pub open spec fn spec_tanh_core(m: int) -> int {
    let m2 = spec_fx_mul(m, m);
    let num = spec_fx_mul(m, 27 * (SCALE as int) + m2);
    let den = 27 * (SCALE as int) + 9 * m2;
    spec_clamp(spec_fx_div(num, den), 0, SCALE as int)
}

/// A smooth, odd, saturating wave shaper: the classic rational tanh
/// approximation, pinned to one past magnitude three.
#[verifier::opaque]
pub open spec fn spec_fast_tanh(x: int) -> int {
    if x >= 3 * (SCALE as int) {
        SCALE as int
    } else if x <= -3 * (SCALE as int) {
        -(SCALE as int)
    } else if x >= 0 {
        spec_tanh_core(x)
    } else {
        -spec_tanh_core(-x)
    }
}

/// Soft saturation of a sample.
pub fn fast_tanh(x: i64) -> (r: i64)
    requires
        -1024 * SCALE <= x <= 1024 * SCALE,
    ensures
        r == spec_fast_tanh(x as int),
        -SCALE <= r <= SCALE,
        x >= 0 ==> r >= 0,
        x <= 0 ==> r <= 0,
        x == 0 ==> r == 0,
{
    proof {
        reveal(spec_fast_tanh);
    }
    if x >= 3 * SCALE {
        SCALE
    } else if x <= -3 * SCALE {
        -SCALE
    } else {
        let m = if x < 0 {
            -x
        } else {
            x
        };
        let m2 = fx_mul(m, m);
        proof {
            lemma_fx_mul_bound(m as int, m as int, m2 as int,
                3 * (SCALE as int), 3 * (SCALE as int));
            assert(m2 <= 9 * SCALE);
        }
        let num = fx_mul(m, 27 * SCALE + m2);
        proof {
            lemma_fx_mul_bound(m as int, 27 * (SCALE as int) + m2 as int, num as int,
                3 * (SCALE as int), 36 * (SCALE as int));
            assert(num <= 108 * SCALE);
        }
        let den = 27 * SCALE + 9 * m2;
        proof {
            lemma_div_is_ordered_by_denominator(
                (num as int) * (SCALE as int), 27 * (SCALE as int), den as int);
            lemma_div_is_ordered(
                (num as int) * (SCALE as int),
                (108 * (SCALE as int)) * (SCALE as int),
                27 * (SCALE as int),
            );
            assert(((108 * 0x1_0000_0000int) * 0x1_0000_0000) / (27 * 0x1_0000_0000int)
                == 4 * 0x1_0000_0000int) by (nonlinear_arith);
            if x == 0 {
                reveal(crate::fixed::spec_fx_mul);
                reveal(crate::fixed::spec_fx_div);
                assert(spec_fx_mul(0, 0) == 0);
                assert(spec_fx_mul(0, 27 * (SCALE as int)) == 0);
                assert(spec_fx_div(0, 27 * (SCALE as int)) == 0);
            }
        }
        let t = fx_div(num, den);
        let core = fx_clamp(t, 0, SCALE);
        if x < 0 {
            -core
        } else {
            core
        }
    }
}

} // verus!
