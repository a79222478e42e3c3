//! The master bus processors: a linked-stereo compressor and a small
//! multi-tap feedback reverb.
//!
//! Both are bypassable: an amount at or below one thousandth leaves the
//! signal and the state untouched. The compressor never increases a
//! sample's magnitude; the reverb keeps every delay-line value inside a
//! proven bound, so its feedback path cannot blow up.

use vstd::prelude::*;
use vstd::arithmetic::div_mod::lemma_div_is_ordered_by_denominator;
use crate::fixed::{SCALE, fx_mul, fx_div, fx_clamp, fx_max, lemma_fx_mul_bound};
use crate::fixed::{spec_abs, spec_fx_mul, spec_fx_div, spec_clamp, spec_max};
use crate::math::{exp_neg, exp2, log2_fx};
use crate::math::{spec_exp_neg, spec_exp2, spec_log2};

verus! {

/// Amounts at or below this (one thousandth) bypass a stage exactly.
pub const AMT_EPS: i64 = 4294967;

/// One half.
pub const HALF: i64 = 2147483648;

/// 0.005 seconds: the compressor attack time constant.
pub const ATTACK_SEC: i64 = 21474836;

/// 0.08 seconds: the compressor release time constant.
pub const RELEASE_SEC: i64 = 343597384;

/// Decibels per factor of two: 20 log10(2).
pub const DB_PER_LOG2: i64 = 25858279730;

/// Factors of two per twentieth of a decibel: log2(10) / 20.
pub const LOG2_PER_DB20: i64 = 713378626;

/// The compressor threshold: -12 dB.
pub const THRESHOLD_DB: i64 = -51539607552;

/// The envelope-follower floor, about 1e-8, guarding the logarithm.
pub const LEVEL_FLOOR: i64 = 43;

/// 0.6, the dry-signal reduction at full reverb.
pub const DRY_DUCK: i64 = 2576980378;

/// 0.7 and 0.3, the two tap weights.
pub const TAP_W1: i64 = 3006477107;

/// The second tap weight.
pub const TAP_W2: i64 = 1288490189;

/// 0.4, the reverb feedback.
pub const FEEDBACK: i64 = 1717986918;

/// The one-pole coefficient for a time constant at a sample rate.
pub open spec fn spec_tc_coeff(tc: int, sr: int) -> int {
    spec_exp_neg(spec_fx_div(SCALE as int, tc * sr))
}

/// A simple linked-stereo bus compressor.
pub struct SimpleComp {
    /// Sample rate in hertz, in [1, 1000000].
    pub sr: u32,
    /// Envelope-follower state, in [0, 16].
    pub env: i64,
    /// Smoothed gain, in [0, 1].
    pub gain_smooth: i64,
    /// Attack one-pole coefficient, in [0, 1).
    pub atk_coeff: i64,
    /// Release one-pole coefficient, in [0, 1).
    pub rel_coeff: i64,
}

impl SimpleComp {
    /// The state invariant.
    pub open spec fn wf(self) -> bool {
        &&& 1 <= self.sr <= 1_000_000
        &&& 0 <= self.env <= 16 * SCALE
        &&& 0 <= self.gain_smooth <= SCALE
        &&& 0 <= self.atk_coeff < SCALE
        &&& 0 <= self.rel_coeff < SCALE
        &&& self.atk_coeff == spec_tc_coeff(ATTACK_SEC as int, self.sr as int)
        &&& self.rel_coeff == spec_tc_coeff(RELEASE_SEC as int, self.sr as int)
    }

    /// The one-pole coefficient e^(-1 / (tc * sr)) for a fixed-point time
    /// constant in seconds.
    fn tc_coeff(tc: i64, sr: u32) -> (r: i64)
        requires
            ATTACK_SEC <= tc <= RELEASE_SEC,
            1 <= sr <= 1_000_000,
        ensures
            r == spec_tc_coeff(tc as int, sr as int),
            0 <= r < SCALE,
    {
        proof {
            assert(tc * (sr as i64) <= RELEASE_SEC * 1_000_000) by (nonlinear_arith)
                requires
                    0 <= tc <= RELEASE_SEC,
                    1 <= sr <= 1_000_000,
            ;
            assert(tc * (sr as i64) >= tc) by (nonlinear_arith)
                requires
                    0 <= tc,
                    1 <= sr,
            ;
        }
        let t = tc * (sr as i64);
        proof {
            lemma_div_is_ordered_by_denominator(
                (SCALE as int) * (SCALE as int), ATTACK_SEC as int, t as int);
            assert((0x1_0000_0000int * 0x1_0000_0000) / 21474836 <= 0x1000_0000_0000_0000int)
                by (nonlinear_arith);
            lemma_div_is_ordered_by_denominator(
                (SCALE as int) * (SCALE as int), t as int, 343597384int * 1_000_000);
            assert((0x1_0000_0000int * 0x1_0000_0000) / (343597384int * 1_000_000) >= 16)
                by (nonlinear_arith);
        }
        let arg = fx_div(SCALE, t);
        exp_neg(arg)
    }

    /// A fresh compressor at the given sample rate: silent follower, unity
    /// gain.
    pub fn new(sr: u32) -> (r: SimpleComp)
        ensures
            r.sr == spec_clamp(sr as int, 1, 1_000_000),
            r.env == 0,
            r.gain_smooth == SCALE,
            r.wf(),
    {
        let s2 = if sr < 1 {
            1u32
        } else if sr > 1_000_000 {
            1_000_000u32
        } else {
            sr
        };
        let atk = Self::tc_coeff(ATTACK_SEC, s2);
        let rel = Self::tc_coeff(RELEASE_SEC, s2);
        SimpleComp { sr: s2, env: 0, gain_smooth: SCALE, atk_coeff: atk, rel_coeff: rel }
    }

    /// Change the sample rate and recompute the time constants.
    pub fn set_sample_rate(&mut self, sr: u32)
        requires
            old(self).wf(),
        ensures
            final(self).sr == spec_clamp(sr as int, 1, 1_000_000),
            final(self).env == old(self).env,
            final(self).gain_smooth == old(self).gain_smooth,
            final(self).wf(),
    {
        let s2 = if sr < 1 {
            1u32
        } else if sr > 1_000_000 {
            1_000_000u32
        } else {
            sr
        };
        self.sr = s2;
        self.atk_coeff = Self::tc_coeff(ATTACK_SEC, s2);
        self.rel_coeff = Self::tc_coeff(RELEASE_SEC, s2);
    }

    /// Forget all signal history: silent follower, unity gain.
    pub fn reset(&mut self)
        requires
            old(self).wf(),
        ensures
            (*final(self) == SimpleComp { env: 0, gain_smooth: SCALE, ..*old(self) }),
            final(self).wf(),
    {
        self.env = 0;
        self.gain_smooth = SCALE;
    }

    /// What one compressor step computes: the follower tracks the louder
    /// channel with attack or release smoothing, the level above -12 dB is
    /// reduced by the ratio 1 + 3 * amount, and the resulting gain, itself
    /// smoothed by one half, scales both channels alike.
    #[verifier::opaque]
    pub open spec fn spec_process(c: SimpleComp, l: int, r: int, amount: int) -> (
        SimpleComp,
        int,
        int,
    ) {
        let amt = spec_clamp(amount, 0, SCALE as int);
        if amt <= AMT_EPS {
            (c, l, r)
        } else {
            let x = spec_max(spec_abs(l), spec_abs(r));
            let coeff = if x > c.env {
                c.atk_coeff as int
            } else {
                c.rel_coeff as int
            };
            let env2 = spec_fx_mul(coeff, c.env as int)
                + spec_fx_mul((SCALE as int) - coeff, x);
            let level = spec_max(env2, LEVEL_FLOOR as int);
            let level_db = spec_fx_mul(spec_log2(level), DB_PER_LOG2 as int);
            let over = level_db - (THRESHOLD_DB as int);
            let ratio = (SCALE as int) + 3 * amt;
            let gain_db = if over > 0 {
                spec_fx_div(over, ratio) - over
            } else {
                0
            };
            let target = spec_exp2(spec_fx_mul(gain_db, LOG2_PER_DB20 as int));
            let g2 = spec_fx_mul(c.gain_smooth as int, HALF as int)
                + spec_fx_mul(target, HALF as int);
            (
                (SimpleComp { env: env2 as i64, gain_smooth: g2 as i64, ..c }),
                spec_fx_mul(l, g2),
                spec_fx_mul(r, g2),
            )
        }
    }

    /// Compress one stereo sample. Never increases either channel's
    /// magnitude; an amount at or below the epsilon is an exact bypass.
    #[verifier::rlimit(60)]
    #[verifier::spinoff_prover]
    pub fn process(&mut self, l: i64, r: i64, amount: i64) -> (out: (i64, i64))
        requires
            old(self).wf(),
            spec_clamp(amount as int, 0, SCALE as int) > AMT_EPS ==> -16 * SCALE <= l <= 16
                * SCALE,
            spec_clamp(amount as int, 0, SCALE as int) > AMT_EPS ==> -16 * SCALE <= r <= 16
                * SCALE,
        ensures
            ({
                let (c2, ol, or) = Self::spec_process(*old(self), l as int, r as int,
                    amount as int);
                &&& *final(self) == c2
                &&& out.0 == ol
                &&& out.1 == or
            }),
            spec_abs(out.0 as int) <= spec_abs(l as int),
            spec_abs(out.1 as int) <= spec_abs(r as int),
            spec_clamp(amount as int, 0, SCALE as int) <= AMT_EPS ==> out.0 == l && out.1 == r
                && *final(self) == *old(self),
            final(self).wf(),
    {
        proof {
            reveal(SimpleComp::spec_process);
        }
        let amt = fx_clamp(amount, 0, SCALE);
        if amt <= AMT_EPS {
            return (l, r);
        }
        let la = if l < 0 {
            -l
        } else {
            l
        };
        let ra = if r < 0 {
            -r
        } else {
            r
        };
        let x = fx_max(la, ra);
        let coeff = if x > self.env {
            self.atk_coeff
        } else {
            self.rel_coeff
        };
        let e1 = fx_mul(coeff, self.env);
        let e2part = fx_mul(SCALE - coeff, x);
        proof {
            let ev = old(self).env as int;
            lemma_fx_mul_bound(coeff as int, ev, e1 as int,
                SCALE as int, 16 * (SCALE as int));
            lemma_fx_mul_bound((SCALE as int) - coeff, x as int, e2part as int,
                SCALE as int, 16 * (SCALE as int));
            assert(
                (coeff as int) * ev + (((SCALE as int) - coeff) * (x as int))
                <= (SCALE as int) * (16 * (SCALE as int))) by (nonlinear_arith)
                requires
                    0 <= coeff < (SCALE as int),
                    0 <= ev <= 16 * (SCALE as int),
                    0 <= x <= 16 * (SCALE as int),
            ;
        }
        let env2 = e1 + e2part;
        self.env = env2;
        let level = fx_max(env2, LEVEL_FLOOR);
        let lg = log2_fx(level);
        let level_db = fx_mul(lg, DB_PER_LOG2);
        proof {
            lemma_fx_mul_bound(lg as int, DB_PER_LOG2 as int, level_db as int,
                32 * (SCALE as int), 7 * (SCALE as int));
        }
        let over = level_db - THRESHOLD_DB;
        let ratio = SCALE + 3 * amt;
        let gain_db = if over > 0 {
            proof {
                lemma_div_is_ordered_by_denominator(
                    (over as int) * (SCALE as int), SCALE as int, ratio as int);
                vstd::arithmetic::div_mod::lemma_div_by_multiple(over as int, SCALE as int);
            }
            let compressed = fx_div(over, ratio);
            compressed - over
        } else {
            0
        };
        let target = exp2(fx_mul(gain_db, LOG2_PER_DB20));
        let g2 = fx_mul(self.gain_smooth, HALF) + fx_mul(target, HALF);
        self.gain_smooth = g2;
        (fx_mul(l, g2), fx_mul(r, g2))
    }
}

/// The delay-line length for a sample rate: about a quarter second.
pub open spec fn spec_rev_len(sr: int) -> int {
    spec_max(1, sr / 4)
}

/// A tap delay of k thousandths of a second, capped at the line's end.
pub open spec fn spec_tap(k: int, sr: int, len: int) -> int {
    if k * sr / 1000 < len - 1 {
        k * sr / 1000
    } else {
        len - 1
    }
}

/// A simple stereo room-ish reverb: two circular delay lines, two taps
/// each, a fixed feedback of 0.4.
pub struct SimpleReverb {
    /// Sample rate in hertz, in [1, 1000000].
    pub sr: u32,
    /// Left delay line.
    pub buf_l: Vec<i64>,
    /// Right delay line.
    pub buf_r: Vec<i64>,
    /// Write index, advancing one slot per sample.
    pub idx: usize,
    /// First left tap delay.
    pub d1_l: usize,
    /// Second left tap delay.
    pub d2_l: usize,
    /// First right tap delay.
    pub d1_r: usize,
    /// Second right tap delay.
    pub d2_r: usize,
    /// Feedback coefficient, fixed at 0.4.
    pub feedback: i64,
}

impl SimpleReverb {
    /// The state invariant: matching line lengths sized for the rate, all
    /// indices in range, and every stored sample inside the proven bound.
    pub open spec fn wf(self) -> bool {
        &&& 1 <= self.sr <= 1_000_000
        &&& self.buf_l@.len() == spec_rev_len(self.sr as int)
        &&& self.buf_r@.len() == self.buf_l@.len()
        &&& (self.idx as int) < self.buf_l@.len()
        &&& (self.d1_l as int) < self.buf_l@.len()
        &&& (self.d2_l as int) < self.buf_l@.len()
        &&& (self.d1_r as int) < self.buf_l@.len()
        &&& (self.d2_r as int) < self.buf_l@.len()
        &&& self.feedback == FEEDBACK
        &&& forall|i: int|
            0 <= i < self.buf_l@.len() ==> -32 * SCALE <= #[trigger] self.buf_l@[i] <= 32 * SCALE
        &&& forall|i: int|
            0 <= i < self.buf_r@.len() ==> -32 * SCALE <= #[trigger] self.buf_r@[i] <= 32 * SCALE
    }

    /// A zeroed delay line of the given length.
    fn zero_line(n: usize) -> (v: Vec<i64>)
        ensures
            v@.len() == n,
            forall|i: int| 0 <= i < n ==> #[trigger] v@[i] == 0,
    {
        let mut v: Vec<i64> = Vec::new();
        while v.len() < n
            invariant
                v@.len() <= n,
                forall|i: int| 0 <= i < v@.len() ==> #[trigger] v@[i] == 0,
            decreases n - v@.len(),
        {
            v.push(0);
        }
        v
    }

    /// A tap delay of k thousandths of a second, capped at the line's end.
    fn tap(k: u64, sr: u32, len: usize) -> (r: usize)
        requires
            k <= 61,
            1 <= sr <= 1_000_000,
            1 <= len,
        ensures
            r == spec_tap(k as int, sr as int, len as int),
            r < len,
    {
        proof {
            assert(k * (sr as u64) <= 61_000_000) by (nonlinear_arith)
                requires
                    k <= 61,
                    sr <= 1_000_000,
            ;
        }
        let d = (k * (sr as u64) / 1000) as usize;
        if d < len - 1 {
            d
        } else {
            len - 1
        }
    }

    /// A fresh reverb at the given sample rate: silent lines, small-room
    /// tap pattern.
    pub fn new(sr: u32) -> (r: SimpleReverb)
        ensures
            r.sr == spec_clamp(sr as int, 1, 1_000_000),
            r.idx == 0,
            forall|i: int| 0 <= i < r.buf_l@.len() ==> #[trigger] r.buf_l@[i] == 0,
            forall|i: int| 0 <= i < r.buf_r@.len() ==> #[trigger] r.buf_r@[i] == 0,
            r.d1_l == spec_tap(31, r.sr as int, r.buf_l@.len() as int),
            r.d2_l == spec_tap(53, r.sr as int, r.buf_l@.len() as int),
            r.d1_r == spec_tap(37, r.sr as int, r.buf_l@.len() as int),
            r.d2_r == spec_tap(61, r.sr as int, r.buf_l@.len() as int),
            r.wf(),
    {
        let s2 = if sr < 1 {
            1u32
        } else if sr > 1_000_000 {
            1_000_000u32
        } else {
            sr
        };
        let len_raw = (s2 / 4) as usize;
        let len = if len_raw < 1 {
            1
        } else {
            len_raw
        };
        SimpleReverb {
            sr: s2,
            buf_l: Self::zero_line(len),
            buf_r: Self::zero_line(len),
            idx: 0,
            d1_l: Self::tap(31, s2, len),
            d2_l: Self::tap(53, s2, len),
            d1_r: Self::tap(37, s2, len),
            d2_r: Self::tap(61, s2, len),
            feedback: FEEDBACK,
        }
    }

    /// Change the sample rate: the lines are resized and silenced and the
    /// taps recomputed.
    pub fn set_sample_rate(&mut self, sr: u32)
        requires
            old(self).wf(),
        ensures
            final(self).sr == spec_clamp(sr as int, 1, 1_000_000),
            final(self).idx == 0,
            forall|i: int|
                0 <= i < final(self).buf_l@.len() ==> #[trigger] final(self).buf_l@[i] == 0,
            forall|i: int|
                0 <= i < final(self).buf_r@.len() ==> #[trigger] final(self).buf_r@[i] == 0,
            final(self).d1_l == spec_tap(31, final(self).sr as int, final(self).buf_l@.len() as int),
            final(self).d2_l == spec_tap(53, final(self).sr as int, final(self).buf_l@.len() as int),
            final(self).d1_r == spec_tap(37, final(self).sr as int, final(self).buf_l@.len() as int),
            final(self).d2_r == spec_tap(61, final(self).sr as int, final(self).buf_l@.len() as int),
            final(self).wf(),
    {
        *self = Self::new(sr);
    }

    /// Silence both delay lines and rewind the write index.
    pub fn reset(&mut self)
        requires
            old(self).wf(),
        ensures
            final(self).sr == old(self).sr,
            final(self).idx == 0,
            final(self).buf_l@.len() == old(self).buf_l@.len(),
            final(self).buf_r@.len() == old(self).buf_r@.len(),
            final(self).d1_l == old(self).d1_l,
            final(self).d2_l == old(self).d2_l,
            final(self).d1_r == old(self).d1_r,
            final(self).d2_r == old(self).d2_r,
            forall|i: int|
                0 <= i < final(self).buf_l@.len() ==> #[trigger] final(self).buf_l@[i] == 0,
            forall|i: int|
                0 <= i < final(self).buf_r@.len() ==> #[trigger] final(self).buf_r@[i] == 0,
            final(self).wf(),
    {
        let n = self.buf_l.len();
        self.buf_l = Self::zero_line(n);
        let m = self.buf_r.len();
        self.buf_r = Self::zero_line(m);
        self.idx = 0;
    }

    /// Where a tap reads: d samples behind the write index, circularly.
    pub open spec fn spec_tap_read(idx: int, d: int, len: int) -> int {
        (idx + len - d) % len
    }

    /// What one reverb step computes, as (left line, right line, write
    /// index, left output, right output): the channels are mixed to mono,
    /// the wet signal per channel is 0.7 of the first tap plus 0.3 of the
    /// second, the mono input plus 0.4 of the wet signal is written back at
    /// the write index, and the output blends the ducked dry signal with
    /// the wet signal scaled by the amount.
    #[verifier::opaque]
    pub open spec fn spec_step(
        buf_l: Seq<i64>,
        buf_r: Seq<i64>,
        idx: int,
        d1_l: int,
        d2_l: int,
        d1_r: int,
        d2_r: int,
        l: int,
        r: int,
        amount: int,
    ) -> (Seq<i64>, Seq<i64>, int, int, int) {
        let amt = spec_clamp(amount, 0, SCALE as int);
        if amt <= AMT_EPS {
            (buf_l, buf_r, idx, l, r)
        } else {
            let len = buf_l.len() as int;
            let mono = spec_fx_mul(l + r, HALF as int);
            let y1l = buf_l[Self::spec_tap_read(idx, d1_l, len)] as int;
            let y2l = buf_l[Self::spec_tap_read(idx, d2_l, len)] as int;
            let y1r = buf_r[Self::spec_tap_read(idx, d1_r, len)] as int;
            let y2r = buf_r[Self::spec_tap_read(idx, d2_r, len)] as int;
            let wet_l = spec_fx_mul(TAP_W1 as int, y1l) + spec_fx_mul(TAP_W2 as int, y2l);
            let wet_r = spec_fx_mul(TAP_W1 as int, y1r) + spec_fx_mul(TAP_W2 as int, y2r);
            let dry = (SCALE as int) - spec_fx_mul(amt, DRY_DUCK as int);
            (
                buf_l.update(idx, (mono + spec_fx_mul(wet_l, FEEDBACK as int)) as i64),
                buf_r.update(idx, (mono + spec_fx_mul(wet_r, FEEDBACK as int)) as i64),
                (idx + 1) % len,
                spec_fx_mul(l, dry) + spec_fx_mul(wet_l, amt),
                spec_fx_mul(r, dry) + spec_fx_mul(wet_r, amt),
            )
        }
    }

    /// The same step, read off a reverb value.
    pub open spec fn spec_process(v: SimpleReverb, l: int, r: int, amount: int) -> (
        Seq<i64>,
        Seq<i64>,
        int,
        int,
        int,
    ) {
        Self::spec_step(
            v.buf_l@, v.buf_r@, v.idx as int, v.d1_l as int, v.d2_l as int,
            v.d1_r as int, v.d2_r as int, l, r, amount)
    }

    /// Add one stereo sample of reverb. An amount at or below the epsilon
    /// is an exact bypass; otherwise the two channels are mixed to mono,
    /// the four taps are read, the wet mix (0.7 of the first tap plus 0.3
    /// of the second, per channel) is fed back at 0.4 into the lines at the
    /// write index, the index advances, and the output blends the ducked
    /// dry signal with the wet signal scaled by the amount.
    #[verifier::rlimit(60)]
    #[verifier::spinoff_prover]
    pub fn process(&mut self, l: i64, r: i64, amount: i64) -> (out: (i64, i64))
        requires
            old(self).wf(),
            spec_clamp(amount as int, 0, SCALE as int) > AMT_EPS ==> -16 * SCALE <= l <= 16
                * SCALE,
            spec_clamp(amount as int, 0, SCALE as int) > AMT_EPS ==> -16 * SCALE <= r <= 16
                * SCALE,
        ensures
            ({
                let step = Self::spec_process(*old(self), l as int, r as int, amount as int);
                &&& final(self).buf_l@ == step.0
                &&& final(self).buf_r@ == step.1
                &&& final(self).idx == step.2
                &&& out.0 == step.3
                &&& out.1 == step.4
            }),
            final(self).sr == old(self).sr,
            final(self).d1_l == old(self).d1_l,
            final(self).d2_l == old(self).d2_l,
            final(self).d1_r == old(self).d1_r,
            final(self).d2_r == old(self).d2_r,
            spec_clamp(amount as int, 0, SCALE as int) <= AMT_EPS
                ==> *final(self) == *old(self) && out.0 == l && out.1 == r,
            spec_clamp(amount as int, 0, SCALE as int) > AMT_EPS
                ==> -48 * SCALE <= out.0 <= 48 * SCALE && -48 * SCALE <= out.1 <= 48 * SCALE,
            final(self).wf(),
    {
        proof {
            reveal(SimpleReverb::spec_step);
        }
        let amt = fx_clamp(amount, 0, SCALE);
        if amt <= AMT_EPS {
            return (l, r);
        }
        let len = self.buf_l.len();
        let idx = self.idx;
        let mono = fx_mul(l + r, HALF);
        proof {
            lemma_fx_mul_bound((l + r) as int, HALF as int, mono as int,
                32 * (SCALE as int), HALF as int);
        }
        let t1l = (idx + len - self.d1_l) % len;
        let t2l = (idx + len - self.d2_l) % len;
        let t1r = (idx + len - self.d1_r) % len;
        let t2r = (idx + len - self.d2_r) % len;
        let y1l = self.buf_l[t1l];
        let y2l = self.buf_l[t2l];
        let y1r = self.buf_r[t1r];
        let y2r = self.buf_r[t2r];
        let w1l = fx_mul(TAP_W1, y1l);
        let w2l = fx_mul(TAP_W2, y2l);
        let w1r = fx_mul(TAP_W1, y1r);
        let w2r = fx_mul(TAP_W2, y2r);
        proof {
            lemma_fx_mul_bound(TAP_W1 as int, y1l as int, w1l as int,
                TAP_W1 as int, 32 * (SCALE as int));
            lemma_fx_mul_bound(TAP_W2 as int, y2l as int, w2l as int,
                TAP_W2 as int, 32 * (SCALE as int));
            lemma_fx_mul_bound(TAP_W1 as int, y1r as int, w1r as int,
                TAP_W1 as int, 32 * (SCALE as int));
            lemma_fx_mul_bound(TAP_W2 as int, y2r as int, w2r as int,
                TAP_W2 as int, 32 * (SCALE as int));
        }
        let wet_l = w1l + w2l;
        let wet_r = w1r + w2r;
        let fb_l = fx_mul(wet_l, FEEDBACK);
        let fb_r = fx_mul(wet_r, FEEDBACK);
        proof {
            lemma_fx_mul_bound(wet_l as int, FEEDBACK as int, fb_l as int,
                32 * (SCALE as int), FEEDBACK as int);
            lemma_fx_mul_bound(wet_r as int, FEEDBACK as int, fb_r as int,
                32 * (SCALE as int), FEEDBACK as int);
        }
        self.buf_l[idx] = mono + fb_l;
        self.buf_r[idx] = mono + fb_r;
        self.idx = (idx + 1) % len;
        let dry = SCALE - fx_mul(amt, DRY_DUCK);
        let o1l = fx_mul(l, dry);
        let o2l = fx_mul(wet_l, amt);
        let o1r = fx_mul(r, dry);
        let o2r = fx_mul(wet_r, amt);
        proof {
            lemma_fx_mul_bound(l as int, dry as int, o1l as int,
                16 * (SCALE as int), SCALE as int);
            lemma_fx_mul_bound(r as int, dry as int, o1r as int,
                16 * (SCALE as int), SCALE as int);
        }
        (o1l + o2l, o1r + o2r)
    }
}

} // verus!
