//! The eight one-shot drum voices.
//!
//! A `DrumSlot` owns one percussion slot's state: an exponential envelope, a
//! phase-accumulating sine oscillator, a linear-congruential noise source and
//! a one-pole low-pass used to carve high-passed noise bands. `trigger`
//! starts a hit, `process` renders one sample; both have exact functional
//! contracts, so the rendered signal is a proven deterministic function of
//! the voice state and the parameter snapshot.

use vstd::prelude::*;
use vstd::arithmetic::div_mod::{lemma_div_is_ordered, lemma_div_is_ordered_by_denominator};
use crate::fixed::{SCALE, fx_mul, fx_div, fx_div_small, fx_div_trunc, fx_clamp, fx_max};
use crate::fixed::{spec_fx_mul, spec_fx_div, spec_div_trunc, spec_clamp, spec_max};
use crate::math::{exp_neg, exp2, pow_frac, sin_turn, fast_tanh, TWO_PI};
use crate::math::{spec_exp_neg, spec_exp2, spec_pow_frac, spec_sin_turn, spec_fast_tanh};
use crate::params::{DrumSlotParams, MasterParams};

verus! {

/// The number of drum slots.
pub const N_SLOTS: usize = 8;

/// The eight instruments, one per slot.
#[derive(Copy, Clone, Debug, PartialEq, Eq, Structural)]
pub enum SlotType {
    Kick,
    Snare,
    Clap,
    HatClosed,
    HatOpen,
    Tom,
    Perc1,
    Perc2,
}

/// The instrument assigned to each slot index.
pub open spec fn spec_slot_type(i: int) -> SlotType {
    if i == 0 {
        SlotType::Kick
    } else if i == 1 {
        SlotType::Snare
    } else if i == 2 {
        SlotType::Clap
    } else if i == 3 {
        SlotType::HatClosed
    } else if i == 4 {
        SlotType::HatOpen
    } else if i == 5 {
        SlotType::Tom
    } else if i == 6 {
        SlotType::Perc1
    } else {
        SlotType::Perc2
    }
}

/// The instrument for a slot index.
pub fn slot_type_of(i: usize) -> (r: SlotType)
    requires
        i < N_SLOTS,
    ensures
        r == spec_slot_type(i as int),
{
    if i == 0 {
        SlotType::Kick
    } else if i == 1 {
        SlotType::Snare
    } else if i == 2 {
        SlotType::Clap
    } else if i == 3 {
        SlotType::HatClosed
    } else if i == 4 {
        SlotType::HatOpen
    } else if i == 5 {
        SlotType::Tom
    } else if i == 6 {
        SlotType::Perc1
    } else {
        SlotType::Perc2
    }
}

/// Base pitch of each instrument, in fixed-point hertz.
pub open spec fn spec_base_pitch(k: SlotType) -> int {
    match k {
        SlotType::Kick => 55 * (SCALE as int),
        SlotType::Snare => 180 * (SCALE as int),
        SlotType::Clap => 250 * (SCALE as int),
        SlotType::HatClosed => 8000 * (SCALE as int),
        SlotType::HatOpen => 7000 * (SCALE as int),
        SlotType::Tom => 140 * (SCALE as int),
        SlotType::Perc1 => 400 * (SCALE as int),
        SlotType::Perc2 => 700 * (SCALE as int),
    }
}

fn base_pitch(k: SlotType) -> (r: i64)
    ensures
        r == spec_base_pitch(k),
        55 * SCALE <= r <= 8000 * SCALE,
{
    match k {
        SlotType::Kick => 55 * SCALE,
        SlotType::Snare => 180 * SCALE,
        SlotType::Clap => 250 * SCALE,
        SlotType::HatClosed => 8000 * SCALE,
        SlotType::HatOpen => 7000 * SCALE,
        SlotType::Tom => 140 * SCALE,
        SlotType::Perc1 => 400 * SCALE,
        SlotType::Perc2 => 700 * SCALE,
    }
}

/// Noise samples are bipolar values scaled by 0.7.
pub const NOISE_GAIN: i64 = 3006477107;

/// 0.15 in fixed point.
pub const FRAC_015: i64 = 644245094;

/// 0.3 in fixed point.
pub const FRAC_03: i64 = 1288490189;

/// 0.4 in fixed point.
pub const FRAC_04: i64 = 1717986918;

/// 0.5 in fixed point.
pub const FRAC_05: i64 = 2147483648;

/// 0.6 in fixed point.
pub const FRAC_06: i64 = 2576980378;

/// 0.7 in fixed point.
pub const FRAC_07: i64 = 3006477107;

/// 0.8 in fixed point.
pub const FRAC_08: i64 = 3435973837;

/// 0.9 in fixed point.
pub const FRAC_09: i64 = 3865470566;

/// 1.2 in fixed point.
pub const FRAC_12: i64 = 5153960755;

/// 1.5 in fixed point.
pub const FRAC_15: i64 = 6442450944;

/// 2.5 in fixed point.
pub const FRAC_25: i64 = 10737418240;

/// One millisecond in fixed-point seconds.
pub const MS_1: i64 = 4294967;

/// 0.45, the upper cutoff bound as a fraction of the sample rate.
pub const NYQUIST_RATIO: i64 = 1932735283;

/// The decay coefficient a fresh voice carries before its first trigger.
pub const DEFAULT_DECAY_COEF: i64 = 4290672329;

/// One step of the linear congruential generator.
pub open spec fn spec_lcg(s: u32) -> u32 {
    vstd::wrapping::u32_specs::wrapping_add(
        vstd::wrapping::u32_specs::wrapping_mul(s, 1664525),
        1013904223,
    )
}

/// The bipolar value in [-1, 1) carried by a generator state: its top 23
/// bits as a fraction, remapped.
pub open spec fn spec_bipolar(s: u32) -> int {
    2 * (((s as int) / 512) * 512) - SCALE
}

/// A noise sample: the bipolar value scaled by 0.7.
pub open spec fn spec_noise_val(s: u32) -> int {
    spec_fx_mul(spec_bipolar(s), NOISE_GAIN as int)
}

/// The oscillator phase after one sample at the given frequency, as a turn
/// fraction.
pub open spec fn spec_phase_step(phase: int, freq: int, sr: int) -> int {
    (phase + freq / sr) % (SCALE as int)
}

/// The cutoff actually used by the noise high-pass: clamped to at least
/// 200 Hz and at most 0.45 of the sample rate (or 200 Hz if that is lower).
pub open spec fn spec_hp_cutoff(c: int, sr: int) -> int {
    spec_clamp(c, 200 * (SCALE as int), spec_max(200 * (SCALE as int), sr * (NYQUIST_RATIO as int)))
}

/// The one-pole coefficient for a cutoff at a sample rate.
pub open spec fn spec_alpha(fc: int, sr: int) -> int {
    (SCALE as int) - spec_exp_neg(spec_fx_mul(fc / sr, TWO_PI as int))
}

/// The low-pass state after one update toward the noise sample.
pub open spec fn spec_lp_step(lp: int, noise: int, alpha: int) -> int {
    lp + spec_fx_mul(alpha, noise - lp)
}

/// One percussion voice.
pub struct DrumSlot {
    /// Which instrument this voice renders; fixed at construction.
    pub kind: SlotType,
    /// Sample rate in hertz, clamped into [1, 1000000].
    pub sample_rate: u32,
    /// True from trigger until the envelope decays below one ten-thousandth.
    pub active: bool,
    /// The per-hit amplitude envelope, in [0, 1].
    pub env: i64,
    /// Per-sample envelope multiplier, in [0, 1).
    pub decay_coef: i64,
    /// The hit's velocity after curve shaping, in [0, 1].
    pub velocity: i64,
    /// Noise generator state.
    pub noise_state: u32,
    /// One-pole low-pass state of the noise band filter, in [-1, 1].
    pub noise_lp: i64,
    /// Oscillator phase as a turn fraction, in [0, 1).
    pub osc_phase: i64,
    /// The hit's pitched-body frequency in hertz, in [20, 12000].
    pub base_freq: i64,
    /// Per-hit amplitude humanization factor, around one.
    pub human_amp: i64,
    /// Per-hit pitch humanization in semitones, in [-3, 3].
    pub human_pitch: i64,
    /// Per-hit decay-time humanization factor, around one.
    pub human_decay_mul: i64,
}

impl DrumSlot {
    /// The state invariant every voice keeps between calls.
    pub open spec fn wf(self) -> bool {
        &&& 1 <= self.sample_rate <= 1_000_000
        &&& 0 <= self.env <= SCALE
        &&& 0 <= self.decay_coef < SCALE
        &&& 0 <= self.velocity <= SCALE
        &&& -SCALE <= self.noise_lp <= SCALE
        &&& 0 <= self.osc_phase < SCALE
        &&& 20 * SCALE <= self.base_freq <= 12000 * SCALE
        &&& 0 <= self.human_amp <= 2 * SCALE
        &&& -3 * SCALE <= self.human_pitch <= 3 * SCALE
        &&& 0 <= self.human_decay_mul <= 2 * SCALE
    }

    /// The voice `new` builds: silent, inactive, neutral humanization.
    pub open spec fn spec_new(kind: SlotType, sample_rate: u32) -> DrumSlot {
        DrumSlot {
            kind,
            sample_rate: spec_clamp(sample_rate as int, 1, 1_000_000) as u32,
            active: false,
            env: 0,
            decay_coef: DEFAULT_DECAY_COEF,
            velocity: 0,
            noise_state: 1,
            noise_lp: 0,
            osc_phase: 0,
            base_freq: (100 * SCALE) as i64,
            human_amp: SCALE,
            human_pitch: 0,
            human_decay_mul: SCALE,
        }
    }

    /// A fresh, silent voice.
    pub fn new(kind: SlotType, sample_rate: u32) -> (r: DrumSlot)
        ensures
            r == Self::spec_new(kind, sample_rate),
            r.wf(),
            !r.active,
    {
        let sr = if sample_rate < 1 {
            1
        } else if sample_rate > 1_000_000 {
            1_000_000
        } else {
            sample_rate
        };
        DrumSlot {
            kind,
            sample_rate: sr,
            active: false,
            env: 0,
            decay_coef: DEFAULT_DECAY_COEF,
            velocity: 0,
            noise_state: 1,
            noise_lp: 0,
            osc_phase: 0,
            base_freq: 100 * SCALE,
            human_amp: SCALE,
            human_pitch: 0,
            human_decay_mul: SCALE,
        }
    }

    /// Change the sample rate, clamped into the supported range.
    pub fn set_sample_rate(&mut self, sr: u32)
        requires
            old(self).wf(),
        ensures
            (*final(self) == DrumSlot {
                sample_rate: spec_clamp(sr as int, 1, 1_000_000) as u32,
                ..*old(self)
            }),
            final(self).wf(),
    {
        self.sample_rate = if sr < 1 {
            1
        } else if sr > 1_000_000 {
            1_000_000
        } else {
            sr
        };
    }

    /// Advance the generator and return a bipolar value in [-1, 1).
    fn random_bipolar(&mut self) -> (r: i64)
        requires
            old(self).wf(),
        ensures
            (*final(self) == DrumSlot {
                noise_state: spec_lcg(old(self).noise_state),
                ..*old(self)
            }),
            r == spec_bipolar(spec_lcg(old(self).noise_state)),
            -SCALE <= r < SCALE,
            final(self).wf(),
    {
        self.noise_state = self.noise_state.wrapping_mul(1664525).wrapping_add(1013904223);
        let frac: i64 = ((self.noise_state / 512) * 512) as i64;
        2 * frac - SCALE
    }

    /// Advance the generator and return a noise sample.
    fn next_noise(&mut self) -> (r: i64)
        requires
            old(self).wf(),
        ensures
            (*final(self) == DrumSlot {
                noise_state: spec_lcg(old(self).noise_state),
                ..*old(self)
            }),
            r == spec_noise_val(spec_lcg(old(self).noise_state)),
            -SCALE <= r <= SCALE,
            final(self).wf(),
    {
        let b = self.random_bipolar();
        fx_mul(b, NOISE_GAIN)
    }

    /// Advance the oscillator at the given frequency and return its sample.
    fn next_sine(&mut self, freq: i64) -> (r: i64)
        requires
            old(self).wf(),
            0 <= freq <= 400_000 * SCALE,
        ensures
            (*final(self) == DrumSlot {
                osc_phase: spec_phase_step(
                    old(self).osc_phase as int, freq as int, old(self).sample_rate as int) as i64,
                ..*old(self)
            }),
            r == spec_sin_turn(spec_phase_step(
                old(self).osc_phase as int, freq as int, old(self).sample_rate as int)),
            -SCALE <= r <= SCALE,
            final(self).wf(),
    {
        let inc = (freq as u64) / (self.sample_rate as u64);
        let ph = (((self.osc_phase as u64) + inc) % (SCALE as u64)) as i64;
        self.osc_phase = ph;
        sin_turn(ph)
    }

    /// High-pass a noise sample through the one-pole low-pass: returns the
    /// part of the noise above the cutoff.
    fn hp_noise(&mut self, noise: i64, cutoff_hz: i64) -> (r: i64)
        requires
            old(self).wf(),
            -SCALE <= noise <= SCALE,
            0 <= cutoff_hz <= 20_000 * SCALE,
        ensures
            ({
                let fc = spec_hp_cutoff(cutoff_hz as int, old(self).sample_rate as int);
                let al = spec_alpha(fc, old(self).sample_rate as int);
                let lp2 = spec_lp_step(old(self).noise_lp as int, noise as int, al);
                &&& *final(self) == (DrumSlot { noise_lp: lp2 as i64, ..*old(self) })
                &&& r == noise - lp2
            }),
            -2 * SCALE <= r <= 2 * SCALE,
            final(self).wf(),
    {
        let sr = self.sample_rate;
        let hi = fx_max(200 * SCALE, (sr as i64) * NYQUIST_RATIO);
        let fc = fx_clamp(cutoff_hz, 200 * SCALE, hi);
        let ratio = ((fc as u64) / (sr as u64)) as i64;
        proof {
            if fc > 200 * SCALE {
                lemma_div_is_ordered(fc as int, (sr as int) * (NYQUIST_RATIO as int), sr as int);
                vstd::arithmetic::div_mod::lemma_div_by_multiple(NYQUIST_RATIO as int, sr as int);
            }
            lemma_div_is_ordered_by_denominator(fc as int, 1, sr as int);
            assert(ratio <= 200 * SCALE || ratio <= NYQUIST_RATIO);
        }
        let arg = fx_mul(ratio, TWO_PI);
        let alpha = SCALE - exp_neg(arg);
        let d = noise - self.noise_lp;
        let t = fx_mul(alpha, d);
        let lp2 = self.noise_lp + t;
        self.noise_lp = lp2;
        noise - lp2
    }

    /// What `render_kick` computes: a pitch-swept, saturated sine body plus
    /// a bright high-passed noise click weighted by snap and attack.
    #[verifier::opaque]
    pub open spec fn spec_render_kick(s: DrumSlot, env: int, p: DrumSlotParams) -> (DrumSlot, int) {
        let sr = s.sample_rate as int;
        let sweep_amt = (FRAC_03 as int) + spec_fx_mul(FRAC_07 as int, p.tone as int);
        let sw = spec_fx_mul(sweep_amt, spec_fx_mul(env, env));
        let ratio = spec_exp2(spec_div_trunc(30 * sw, 12));
        let freq = spec_fx_mul(s.base_freq as int, ratio);
        let ph = spec_phase_step(s.osc_phase as int, freq, sr);
        let body = spec_fast_tanh(
            spec_fx_mul(spec_sin_turn(ph), (SCALE as int) + 3 * (p.snap as int)));
        let ns = spec_lcg(s.noise_state);
        let nval = spec_noise_val(ns);
        let cutoff = 4000 * (SCALE as int) + spec_fx_mul(p.tone as int, 4000 * (SCALE as int));
        let al = spec_alpha(spec_hp_cutoff(cutoff, sr), sr);
        let lp2 = spec_lp_step(s.noise_lp as int, nval, al);
        let click = spec_fx_mul(
            spec_fx_mul(nval - lp2, p.snap as int), spec_pow_frac(env, FRAC_03 as int));
        let out = spec_fx_mul(body, FRAC_09 as int) + spec_fx_mul(click, FRAC_04 as int);
        ((DrumSlot { osc_phase: ph as i64, noise_state: ns, noise_lp: lp2 as i64, ..s }), out)
    }

    #[verifier::rlimit(100)]
    #[verifier::spinoff_prover]
    fn render_kick(&mut self, env: i64, p: &DrumSlotParams) -> (r: i64)
        requires
            old(self).wf(),
            p.wf(),
            0 <= env <= SCALE,
        ensures
            ({
                let (s2, out) = DrumSlot::spec_render_kick(*old(self), env as int, *p);
                &&& *final(self) == s2
                &&& r == out
            }),
            -4 * SCALE <= r <= 4 * SCALE,
            final(self).wf(),
            final(self).kind == old(self).kind,
            final(self).sample_rate == old(self).sample_rate,
            final(self).active == old(self).active,
            final(self).env == old(self).env,
            final(self).decay_coef == old(self).decay_coef,
            final(self).velocity == old(self).velocity,
            final(self).base_freq == old(self).base_freq,
            final(self).human_amp == old(self).human_amp,
            final(self).human_pitch == old(self).human_pitch,
            final(self).human_decay_mul == old(self).human_decay_mul,
    {
        proof {
            reveal(DrumSlot::spec_render_kick);
        }
        let sweep_amt = FRAC_03 + fx_mul(FRAC_07, p.tone);
        let sw = fx_mul(sweep_amt, fx_mul(env, env));
        let ratio = exp2(fx_div_trunc(30 * sw, 12));
        let freq = fx_mul(self.base_freq, ratio);
        proof {
            crate::fixed::lemma_fx_mul_bound(self.base_freq as int, ratio as int, freq as int,
                12000 * (SCALE as int), 32 * (SCALE as int));
        }
        let body_raw = self.next_sine(freq);
        let body = fast_tanh(fx_mul(body_raw, SCALE + 3 * p.snap));
        let n = self.next_noise();
        let cutoff = 4000 * SCALE + fx_mul(p.tone, 4000 * SCALE);
        let hp = self.hp_noise(n, cutoff);
        let click = fx_mul(fx_mul(hp, p.snap), pow_frac(env, FRAC_03));
        let c_out = fx_mul(click, FRAC_04);
        proof {
            crate::fixed::lemma_fx_mul_bound(click as int, FRAC_04 as int, c_out as int,
                2 * (SCALE as int), FRAC_04 as int);
        }
        fx_mul(body, FRAC_09) + c_out
    }

    /// What `render_snare` computes: a pitched body mixed against a bright
    /// noise band; darker tone favors the body, snap favors the noise.
    #[verifier::opaque]
    pub open spec fn spec_render_snare(s: DrumSlot, env: int, p: DrumSlotParams) -> (
        DrumSlot,
        int,
    ) {
        let sr = s.sample_rate as int;
        let ph = spec_phase_step(s.osc_phase as int, s.base_freq as int, sr);
        let body = spec_sin_turn(ph);
        let ns = spec_lcg(s.noise_state);
        let nval = spec_noise_val(ns);
        let cutoff = 2000 * (SCALE as int) + spec_fx_mul(p.tone as int, 6000 * (SCALE as int));
        let al = spec_alpha(spec_hp_cutoff(cutoff, sr), sr);
        let lp2 = spec_lp_step(s.noise_lp as int, nval, al);
        let body_mix = spec_fx_mul(FRAC_04 as int, (SCALE as int) - p.tone as int);
        let noise_mix = (FRAC_08 as int) + spec_fx_mul(FRAC_04 as int, p.snap as int);
        let out = spec_fx_mul(body, body_mix) + spec_fx_mul(nval - lp2, noise_mix);
        ((DrumSlot { osc_phase: ph as i64, noise_state: ns, noise_lp: lp2 as i64, ..s }), out)
    }

    fn render_snare(&mut self, env: i64, p: &DrumSlotParams) -> (r: i64)
        requires
            old(self).wf(),
            p.wf(),
            0 <= env <= SCALE,
        ensures
            ({
                let (s2, out) = DrumSlot::spec_render_snare(*old(self), env as int, *p);
                &&& *final(self) == s2
                &&& r == out
            }),
            -4 * SCALE <= r <= 4 * SCALE,
            final(self).wf(),
            final(self).kind == old(self).kind,
            final(self).sample_rate == old(self).sample_rate,
            final(self).active == old(self).active,
            final(self).env == old(self).env,
            final(self).decay_coef == old(self).decay_coef,
            final(self).velocity == old(self).velocity,
            final(self).base_freq == old(self).base_freq,
            final(self).human_amp == old(self).human_amp,
            final(self).human_pitch == old(self).human_pitch,
            final(self).human_decay_mul == old(self).human_decay_mul,
    {
        proof {
            reveal(DrumSlot::spec_render_snare);
        }
        let base = self.base_freq;
        let body = self.next_sine(base);
        let n = self.next_noise();
        let hp = self.hp_noise(n, 2000 * SCALE + fx_mul(p.tone, 6000 * SCALE));
        let body_mix = fx_mul(FRAC_04, SCALE - p.tone);
        let noise_mix = FRAC_08 + fx_mul(FRAC_04, p.snap);
        let n_out = fx_mul(hp, noise_mix);
        proof {
            crate::fixed::lemma_fx_mul_bound(hp as int, noise_mix as int, n_out as int,
                2 * (SCALE as int), FRAC_12 as int + 1);
        }
        fx_mul(body, body_mix) + n_out
    }

    /// What `render_clap` computes: a medium noise band with an early burst
    /// emphasis capped at 1.5.
    #[verifier::opaque]
    pub open spec fn spec_render_clap(s: DrumSlot, env: int, p: DrumSlotParams) -> (
        DrumSlot,
        int,
    ) {
        let sr = s.sample_rate as int;
        let ns = spec_lcg(s.noise_state);
        let nval = spec_noise_val(ns);
        let cutoff = 800 * (SCALE as int)
            + spec_fx_mul((SCALE as int) - p.tone as int, 1200 * (SCALE as int));
        let al = spec_alpha(spec_hp_cutoff(cutoff, sr), sr);
        let lp2 = spec_lp_step(s.noise_lp as int, nval, al);
        let burst = spec_clamp(
            spec_fx_mul(
                spec_pow_frac(env, FRAC_03 as int),
                (SCALE as int) + spec_fx_mul(FRAC_06 as int, p.snap as int),
            ),
            0,
            FRAC_15 as int,
        );
        let out = spec_fx_mul(nval - lp2, burst);
        ((DrumSlot { noise_state: ns, noise_lp: lp2 as i64, ..s }), out)
    }

    fn render_clap(&mut self, env: i64, p: &DrumSlotParams) -> (r: i64)
        requires
            old(self).wf(),
            p.wf(),
            0 <= env <= SCALE,
        ensures
            ({
                let (s2, out) = DrumSlot::spec_render_clap(*old(self), env as int, *p);
                &&& *final(self) == s2
                &&& r == out
            }),
            -4 * SCALE <= r <= 4 * SCALE,
            final(self).wf(),
            final(self).kind == old(self).kind,
            final(self).sample_rate == old(self).sample_rate,
            final(self).active == old(self).active,
            final(self).env == old(self).env,
            final(self).decay_coef == old(self).decay_coef,
            final(self).velocity == old(self).velocity,
            final(self).base_freq == old(self).base_freq,
            final(self).human_amp == old(self).human_amp,
            final(self).human_pitch == old(self).human_pitch,
            final(self).human_decay_mul == old(self).human_decay_mul,
    {
        proof {
            reveal(DrumSlot::spec_render_clap);
        }
        let n = self.next_noise();
        let band = self.hp_noise(n, 800 * SCALE + fx_mul(SCALE - p.tone, 1200 * SCALE));
        let burst = fx_clamp(
            fx_mul(pow_frac(env, FRAC_03), SCALE + fx_mul(FRAC_06, p.snap)), 0, FRAC_15);
        let out = fx_mul(band, burst);
        proof {
            crate::fixed::lemma_fx_mul_bound(band as int, burst as int, out as int,
                2 * (SCALE as int), FRAC_15 as int);
        }
        out
    }

    /// What `render_hat_closed` computes: a bright noise band with a very
    /// snappy envelope shape.
    #[verifier::opaque]
    pub open spec fn spec_render_hat_closed(s: DrumSlot, env: int, p: DrumSlotParams) -> (
        DrumSlot,
        int,
    ) {
        let sr = s.sample_rate as int;
        let ns = spec_lcg(s.noise_state);
        let nval = spec_noise_val(ns);
        let cutoff = 6000 * (SCALE as int) + spec_fx_mul(p.tone as int, 6000 * (SCALE as int));
        let al = spec_alpha(spec_hp_cutoff(cutoff, sr), sr);
        let lp2 = spec_lp_step(s.noise_lp as int, nval, al);
        let shape = spec_pow_frac(
            env, (FRAC_25 as int) - spec_fx_mul(FRAC_15 as int, p.snap as int));
        let gain = (FRAC_08 as int) + spec_fx_mul(FRAC_04 as int, p.snap as int);
        let out = spec_fx_mul(spec_fx_mul(nval - lp2, shape), gain);
        ((DrumSlot { noise_state: ns, noise_lp: lp2 as i64, ..s }), out)
    }

    fn render_hat_closed(&mut self, env: i64, p: &DrumSlotParams) -> (r: i64)
        requires
            old(self).wf(),
            p.wf(),
            0 <= env <= SCALE,
        ensures
            ({
                let (s2, out) = DrumSlot::spec_render_hat_closed(*old(self), env as int, *p);
                &&& *final(self) == s2
                &&& r == out
            }),
            -4 * SCALE <= r <= 4 * SCALE,
            final(self).wf(),
            final(self).kind == old(self).kind,
            final(self).sample_rate == old(self).sample_rate,
            final(self).active == old(self).active,
            final(self).env == old(self).env,
            final(self).decay_coef == old(self).decay_coef,
            final(self).velocity == old(self).velocity,
            final(self).base_freq == old(self).base_freq,
            final(self).human_amp == old(self).human_amp,
            final(self).human_pitch == old(self).human_pitch,
            final(self).human_decay_mul == old(self).human_decay_mul,
    {
        proof {
            reveal(DrumSlot::spec_render_hat_closed);
        }
        let n = self.next_noise();
        let hp = self.hp_noise(n, 6000 * SCALE + fx_mul(p.tone, 6000 * SCALE));
        let shape = pow_frac(env, FRAC_25 - fx_mul(FRAC_15, p.snap));
        let gain = FRAC_08 + fx_mul(FRAC_04, p.snap);
        let shaped = fx_mul(hp, shape);
        let out = fx_mul(shaped, gain);
        proof {
            crate::fixed::lemma_fx_mul_bound(shaped as int, gain as int, out as int,
                2 * (SCALE as int), FRAC_12 as int + 1);
        }
        out
    }

    /// What `render_hat_open` computes: a bright noise band with a longer,
    /// snap-steered envelope shape.
    #[verifier::opaque]
    pub open spec fn spec_render_hat_open(s: DrumSlot, env: int, p: DrumSlotParams) -> (
        DrumSlot,
        int,
    ) {
        let sr = s.sample_rate as int;
        let ns = spec_lcg(s.noise_state);
        let nval = spec_noise_val(ns);
        let cutoff = 5000 * (SCALE as int) + spec_fx_mul(p.tone as int, 5000 * (SCALE as int));
        let al = spec_alpha(spec_hp_cutoff(cutoff, sr), sr);
        let lp2 = spec_lp_step(s.noise_lp as int, nval, al);
        let shape = spec_pow_frac(
            env, (FRAC_12 as int) + spec_fx_mul(FRAC_08 as int, p.snap as int));
        let gain = (FRAC_09 as int) + spec_fx_mul(FRAC_03 as int, p.snap as int);
        let out = spec_fx_mul(spec_fx_mul(nval - lp2, shape), gain);
        ((DrumSlot { noise_state: ns, noise_lp: lp2 as i64, ..s }), out)
    }

    fn render_hat_open(&mut self, env: i64, p: &DrumSlotParams) -> (r: i64)
        requires
            old(self).wf(),
            p.wf(),
            0 <= env <= SCALE,
        ensures
            ({
                let (s2, out) = DrumSlot::spec_render_hat_open(*old(self), env as int, *p);
                &&& *final(self) == s2
                &&& r == out
            }),
            -4 * SCALE <= r <= 4 * SCALE,
            final(self).wf(),
            final(self).kind == old(self).kind,
            final(self).sample_rate == old(self).sample_rate,
            final(self).active == old(self).active,
            final(self).env == old(self).env,
            final(self).decay_coef == old(self).decay_coef,
            final(self).velocity == old(self).velocity,
            final(self).base_freq == old(self).base_freq,
            final(self).human_amp == old(self).human_amp,
            final(self).human_pitch == old(self).human_pitch,
            final(self).human_decay_mul == old(self).human_decay_mul,
    {
        proof {
            reveal(DrumSlot::spec_render_hat_open);
        }
        let n = self.next_noise();
        let hp = self.hp_noise(n, 5000 * SCALE + fx_mul(p.tone, 5000 * SCALE));
        let shape = pow_frac(env, FRAC_12 + fx_mul(FRAC_08, p.snap));
        let gain = FRAC_09 + fx_mul(FRAC_03, p.snap);
        let shaped = fx_mul(hp, shape);
        let out = fx_mul(shaped, gain);
        proof {
            crate::fixed::lemma_fx_mul_bound(shaped as int, gain as int, out as int,
                2 * (SCALE as int), FRAC_12 as int + 1);
        }
        out
    }

    /// What `render_tom` computes: a strong pitched body with a modest
    /// noise band on top.
    #[verifier::opaque]
    pub open spec fn spec_render_tom(s: DrumSlot, env: int, p: DrumSlotParams) -> (
        DrumSlot,
        int,
    ) {
        let sr = s.sample_rate as int;
        let ph = spec_phase_step(s.osc_phase as int, s.base_freq as int, sr);
        let body = spec_sin_turn(ph);
        let ns = spec_lcg(s.noise_state);
        let nval = spec_noise_val(ns);
        let cutoff = 1500 * (SCALE as int) + spec_fx_mul(p.tone as int, 3000 * (SCALE as int));
        let al = spec_alpha(spec_hp_cutoff(cutoff, sr), sr);
        let lp2 = spec_lp_step(s.noise_lp as int, nval, al);
        let out = spec_fx_mul(body, FRAC_09 as int) + spec_fx_mul(nval - lp2, FRAC_03 as int);
        ((DrumSlot { osc_phase: ph as i64, noise_state: ns, noise_lp: lp2 as i64, ..s }), out)
    }

    fn render_tom(&mut self, env: i64, p: &DrumSlotParams) -> (r: i64)
        requires
            old(self).wf(),
            p.wf(),
            0 <= env <= SCALE,
        ensures
            ({
                let (s2, out) = DrumSlot::spec_render_tom(*old(self), env as int, *p);
                &&& *final(self) == s2
                &&& r == out
            }),
            -4 * SCALE <= r <= 4 * SCALE,
            final(self).wf(),
            final(self).kind == old(self).kind,
            final(self).sample_rate == old(self).sample_rate,
            final(self).active == old(self).active,
            final(self).env == old(self).env,
            final(self).decay_coef == old(self).decay_coef,
            final(self).velocity == old(self).velocity,
            final(self).base_freq == old(self).base_freq,
            final(self).human_amp == old(self).human_amp,
            final(self).human_pitch == old(self).human_pitch,
            final(self).human_decay_mul == old(self).human_decay_mul,
    {
        proof {
            reveal(DrumSlot::spec_render_tom);
        }
        let base = self.base_freq;
        let body = self.next_sine(base);
        let n = self.next_noise();
        let hp = self.hp_noise(n, 1500 * SCALE + fx_mul(p.tone, 3000 * SCALE));
        let n_out = fx_mul(hp, FRAC_03);
        proof {
            crate::fixed::lemma_fx_mul_bound(hp as int, FRAC_03 as int, n_out as int,
                2 * (SCALE as int), FRAC_03 as int);
        }
        fx_mul(body, FRAC_09) + n_out
    }

    /// What `render_perc1` computes: a dominant bursting noise band with a
    /// metallic pitched element above the base frequency.
    #[verifier::opaque]
    pub open spec fn spec_render_perc1(s: DrumSlot, env: int, p: DrumSlotParams) -> (
        DrumSlot,
        int,
    ) {
        let sr = s.sample_rate as int;
        let ns = spec_lcg(s.noise_state);
        let nval = spec_noise_val(ns);
        let cutoff = 2500 * (SCALE as int) + spec_fx_mul(p.tone as int, 6000 * (SCALE as int));
        let al = spec_alpha(spec_hp_cutoff(cutoff, sr), sr);
        let lp2 = spec_lp_step(s.noise_lp as int, nval, al);
        let freq = spec_fx_mul(
            s.base_freq as int, (FRAC_15 as int) + spec_fx_mul(FRAC_05 as int, p.tone as int));
        let ph = spec_phase_step(s.osc_phase as int, freq, sr);
        let body = spec_sin_turn(ph);
        let burst = spec_pow_frac(env, FRAC_07 as int);
        let out = spec_fx_mul(body, FRAC_03 as int)
            + spec_fx_mul(spec_fx_mul(nval - lp2, FRAC_09 as int), burst);
        ((DrumSlot { osc_phase: ph as i64, noise_state: ns, noise_lp: lp2 as i64, ..s }), out)
    }

    fn render_perc1(&mut self, env: i64, p: &DrumSlotParams) -> (r: i64)
        requires
            old(self).wf(),
            p.wf(),
            0 <= env <= SCALE,
        ensures
            ({
                let (s2, out) = DrumSlot::spec_render_perc1(*old(self), env as int, *p);
                &&& *final(self) == s2
                &&& r == out
            }),
            -4 * SCALE <= r <= 4 * SCALE,
            final(self).wf(),
            final(self).kind == old(self).kind,
            final(self).sample_rate == old(self).sample_rate,
            final(self).active == old(self).active,
            final(self).env == old(self).env,
            final(self).decay_coef == old(self).decay_coef,
            final(self).velocity == old(self).velocity,
            final(self).base_freq == old(self).base_freq,
            final(self).human_amp == old(self).human_amp,
            final(self).human_pitch == old(self).human_pitch,
            final(self).human_decay_mul == old(self).human_decay_mul,
    {
        proof {
            reveal(DrumSlot::spec_render_perc1);
        }
        let n = self.next_noise();
        let hp = self.hp_noise(n, 2500 * SCALE + fx_mul(p.tone, 6000 * SCALE));
        let freq = fx_mul(self.base_freq, FRAC_15 + fx_mul(FRAC_05, p.tone));
        proof {
            crate::fixed::lemma_fx_mul_bound(self.base_freq as int,
                (FRAC_15 + spec_fx_mul(FRAC_05 as int, p.tone as int)) as int, freq as int,
                12000 * (SCALE as int), 2 * (SCALE as int));
        }
        let body = self.next_sine(freq);
        let burst = pow_frac(env, FRAC_07);
        let n_scaled = fx_mul(hp, FRAC_09);
        proof {
            crate::fixed::lemma_fx_mul_bound(hp as int, FRAC_09 as int, n_scaled as int,
                2 * (SCALE as int), SCALE as int);
        }
        let n_out = fx_mul(n_scaled, burst);
        fx_mul(body, FRAC_03) + n_out
    }

    /// What `render_perc2` computes: a pitched body above the base
    /// frequency and a noise band, both shaped by the same envelope curve.
    #[verifier::opaque]
    pub open spec fn spec_render_perc2(s: DrumSlot, env: int, p: DrumSlotParams) -> (
        DrumSlot,
        int,
    ) {
        let sr = s.sample_rate as int;
        let freq = spec_fx_mul(s.base_freq as int, (SCALE as int) + p.tone as int);
        let ph = spec_phase_step(s.osc_phase as int, freq, sr);
        let body = spec_sin_turn(ph);
        let ns = spec_lcg(s.noise_state);
        let nval = spec_noise_val(ns);
        let cutoff = 2000 * (SCALE as int) + spec_fx_mul(p.tone as int, 5000 * (SCALE as int));
        let al = spec_alpha(spec_hp_cutoff(cutoff, sr), sr);
        let lp2 = spec_lp_step(s.noise_lp as int, nval, al);
        let shape = spec_pow_frac(env, FRAC_09 as int);
        let out = spec_fx_mul(spec_fx_mul(body, FRAC_06 as int), shape)
            + spec_fx_mul(spec_fx_mul(nval - lp2, FRAC_05 as int), shape);
        ((DrumSlot { osc_phase: ph as i64, noise_state: ns, noise_lp: lp2 as i64, ..s }), out)
    }

    fn render_perc2(&mut self, env: i64, p: &DrumSlotParams) -> (r: i64)
        requires
            old(self).wf(),
            p.wf(),
            0 <= env <= SCALE,
        ensures
            ({
                let (s2, out) = DrumSlot::spec_render_perc2(*old(self), env as int, *p);
                &&& *final(self) == s2
                &&& r == out
            }),
            -4 * SCALE <= r <= 4 * SCALE,
            final(self).wf(),
            final(self).kind == old(self).kind,
            final(self).sample_rate == old(self).sample_rate,
            final(self).active == old(self).active,
            final(self).env == old(self).env,
            final(self).decay_coef == old(self).decay_coef,
            final(self).velocity == old(self).velocity,
            final(self).base_freq == old(self).base_freq,
            final(self).human_amp == old(self).human_amp,
            final(self).human_pitch == old(self).human_pitch,
            final(self).human_decay_mul == old(self).human_decay_mul,
    {
        proof {
            reveal(DrumSlot::spec_render_perc2);
        }
        let freq = fx_mul(self.base_freq, SCALE + p.tone);
        proof {
            crate::fixed::lemma_fx_mul_bound(self.base_freq as int,
                ((SCALE as int) + p.tone as int) as int, freq as int,
                12000 * (SCALE as int), 2 * (SCALE as int));
        }
        let body = self.next_sine(freq);
        let n = self.next_noise();
        let hp = self.hp_noise(n, 2000 * SCALE + fx_mul(p.tone, 5000 * SCALE));
        let shape = pow_frac(env, FRAC_09);
        let b_scaled = fx_mul(body, FRAC_06);
        let n_scaled = fx_mul(hp, FRAC_05);
        proof {
            crate::fixed::lemma_fx_mul_bound(hp as int, FRAC_05 as int, n_scaled as int,
                2 * (SCALE as int), FRAC_05 as int);
        }
        fx_mul(b_scaled, shape) + fx_mul(n_scaled, shape)
    }

    /// Dispatch to the instrument-specific renderer.
    #[verifier::opaque]
    pub open spec fn spec_render(s: DrumSlot, env: int, p: DrumSlotParams) -> (DrumSlot, int) {
        match s.kind {
            SlotType::Kick => Self::spec_render_kick(s, env, p),
            SlotType::Snare => Self::spec_render_snare(s, env, p),
            SlotType::Clap => Self::spec_render_clap(s, env, p),
            SlotType::HatClosed => Self::spec_render_hat_closed(s, env, p),
            SlotType::HatOpen => Self::spec_render_hat_open(s, env, p),
            SlotType::Tom => Self::spec_render_tom(s, env, p),
            SlotType::Perc1 => Self::spec_render_perc1(s, env, p),
            SlotType::Perc2 => Self::spec_render_perc2(s, env, p),
        }
    }

    /// The per-hit humanization values drawn after the reseed step: the
    /// final generator state, the amplitude factor, the pitch offset and
    /// the decay factor.
    #[verifier::opaque]
    pub open spec fn spec_humanize(ns0: u32, h: int) -> (u32, int, int, int) {
        if h > 0 {
            let ns1 = spec_lcg(ns0);
            let ns2 = spec_lcg(ns1);
            let ns3 = spec_lcg(ns2);
            let amp = (SCALE as int)
                + spec_fx_mul(spec_fx_mul(spec_bipolar(ns1), FRAC_015 as int), h);
            let pitch = spec_fx_mul(spec_fx_mul(spec_bipolar(ns2), 3 * (SCALE as int)), h);
            let dec = (SCALE as int)
                + spec_fx_mul(spec_fx_mul(spec_bipolar(ns3), FRAC_05 as int), h);
            (ns3, amp, pitch, dec)
        } else {
            (ns0, SCALE as int, 0, SCALE as int)
        }
    }

    /// The voice state after a trigger: envelope reset to one, velocity
    /// shaped by the master curve, fresh humanization, a decay coefficient
    /// for the hit's decay time, and the hit's base frequency.
    #[verifier::opaque]
    pub open spec fn spec_trigger(
        s: DrumSlot,
        velocity: int,
        p: DrumSlotParams,
        m: MasterParams,
    ) -> DrumSlot {
        let shape = (FRAC_05 as int) + spec_clamp(m.velocity_curve as int, 0, SCALE as int);
        let vel = spec_pow_frac(spec_clamp(velocity, 0, SCALE as int), shape);
        let ns0 = spec_lcg(s.noise_state);
        let hum = Self::spec_humanize(ns0, p.humanize as int);
        let decay_ms = spec_max(p.decay as int, 5 * (SCALE as int));
        let decay_sec = spec_fx_mul(decay_ms / 1000, hum.3);
        let tau = spec_max(decay_sec, MS_1 as int);
        let coef = spec_exp_neg(spec_fx_div(SCALE as int, tau * (s.sample_rate as int)));
        let pitch_off = p.pitch as int + m.kit_pitch as int + hum.2;
        let ratio = spec_exp2(spec_div_trunc(pitch_off, 12));
        let bf = spec_clamp(
            spec_fx_mul(spec_base_pitch(s.kind), ratio),
            20 * (SCALE as int),
            12000 * (SCALE as int),
        );
        DrumSlot {
            active: true,
            env: SCALE,
            noise_lp: 0,
            velocity: vel as i64,
            noise_state: hum.0,
            human_amp: hum.1 as i64,
            human_pitch: hum.2 as i64,
            human_decay_mul: hum.3 as i64,
            decay_coef: coef as i64,
            base_freq: bf as i64,
            osc_phase: 0,
            ..s
        }
    }

    /// Start (or restart) a hit on this voice. Always succeeds; an active
    /// voice is simply reset, last trigger wins.
    #[verifier::rlimit(60)]
    #[verifier::spinoff_prover]
    pub fn trigger(&mut self, velocity: i64, slot_params: &DrumSlotParams, master: &MasterParams)
        requires
            old(self).wf(),
            slot_params.wf(),
            master.wf(),
        ensures
            *final(self) == Self::spec_trigger(
                *old(self), velocity as int, *slot_params, *master),
            final(self).active,
            final(self).env == SCALE,
            final(self).kind == old(self).kind,
            final(self).sample_rate == old(self).sample_rate,
            final(self).wf(),
    {
        proof {
            reveal(DrumSlot::spec_trigger);
            reveal(DrumSlot::spec_humanize);
        }
        let vc = fx_clamp(master.velocity_curve, 0, SCALE);
        let shape = FRAC_05 + vc;
        let vel = pow_frac(fx_clamp(velocity, 0, SCALE), shape);
        self.noise_state = self.noise_state.wrapping_mul(1664525).wrapping_add(1013904223);
        let h = slot_params.humanize;
        if h > 0 {
            let r1 = self.random_bipolar();
            let r2 = self.random_bipolar();
            let r3 = self.random_bipolar();
            self.human_amp = SCALE + fx_mul(fx_mul(r1, FRAC_015), h);
            self.human_pitch = fx_mul(fx_mul(r2, 3 * SCALE), h);
            self.human_decay_mul = SCALE + fx_mul(fx_mul(r3, FRAC_05), h);
        } else {
            self.human_amp = SCALE;
            self.human_pitch = 0;
            self.human_decay_mul = SCALE;
        }
        let decay_ms = fx_max(slot_params.decay, 5 * SCALE);
        let dsec0 = fx_div_small(decay_ms, 1000);
        proof {
            lemma_div_is_ordered(decay_ms as int, 2000 * (SCALE as int), 1000);
            assert((2000 * 0x1_0000_0000int) / 1000 == 2 * 0x1_0000_0000int)
                by (nonlinear_arith);
        }
        let decay_sec = fx_mul(dsec0, self.human_decay_mul);
        proof {
            crate::fixed::lemma_fx_mul_bound(
                dsec0 as int, self.human_decay_mul as int, decay_sec as int,
                2 * (SCALE as int), 2 * (SCALE as int));
        }
        let tau = fx_max(decay_sec, MS_1);
        proof {
            assert(tau * (self.sample_rate as i64) <= (4 * (SCALE as int)) * 1_000_000)
                by (nonlinear_arith)
                requires
                    0 <= tau <= 4 * (SCALE as int),
                    1 <= self.sample_rate <= 1_000_000,
            ;
            assert(tau * (self.sample_rate as i64) >= tau) by (nonlinear_arith)
                requires
                    0 <= tau,
                    1 <= self.sample_rate,
            ;
        }
        let t = tau * (self.sample_rate as i64);
        proof {
            lemma_div_is_ordered_by_denominator(
                (SCALE as int) * (SCALE as int), MS_1 as int, t as int);
            assert((0x1_0000_0000int * 0x1_0000_0000) / 4294967 <= 0x1000_0000_0000_0000int)
                by (nonlinear_arith);
        }
        let arg = fx_div(SCALE, t);
        proof {
            lemma_div_is_ordered_by_denominator(
                (SCALE as int) * (SCALE as int), t as int,
                (4 * (SCALE as int)) * 1_000_000);
            assert((0x1_0000_0000int * 0x1_0000_0000)
                / ((4 * 0x1_0000_0000int) * 1_000_000) >= 16) by (nonlinear_arith);
        }
        self.decay_coef = exp_neg(arg);
        let base = base_pitch(self.kind);
        let pitch_off = slot_params.pitch + master.kit_pitch + self.human_pitch;
        let po12 = fx_div_trunc(pitch_off, 12);
        proof {
            if pitch_off >= 0 {
                lemma_div_is_ordered(pitch_off as int, 39 * (SCALE as int), 12);
            } else {
                lemma_div_is_ordered(-(pitch_off as int), 39 * (SCALE as int), 12);
            }
            assert((39 * 0x1_0000_0000int) / 12 < 4 * 0x1_0000_0000int) by (nonlinear_arith);
        }
        let ratio = exp2(po12);
        let bf = fx_mul(base, ratio);
        proof {
            crate::fixed::lemma_fx_mul_bound(base as int, ratio as int, bf as int,
                8000 * (SCALE as int), 32 * (SCALE as int));
        }
        self.base_freq = fx_clamp(bf, 20 * SCALE, 12000 * SCALE);
        self.osc_phase = 0;
        self.active = true;
        self.env = SCALE;
        self.noise_lp = 0;
        self.velocity = vel;
    }

    /// The voice state and output sample after rendering one sample: the
    /// envelope decays multiplicatively; below one ten-thousandth the voice
    /// snaps silent; otherwise the instrument renderer runs and its sample
    /// is scaled by envelope, velocity and humanized amplitude, then softly
    /// saturated.
    #[verifier::opaque]
    pub open spec fn spec_process(s: DrumSlot, p: DrumSlotParams) -> (DrumSlot, int) {
        if !s.active {
            (s, 0)
        } else {
            let env2 = spec_fx_mul(s.env as int, s.decay_coef as int);
            if 10000 * env2 < SCALE {
                ((DrumSlot { env: 0, active: false, ..s }), 0)
            } else {
                let s1 = DrumSlot { env: env2 as i64, ..s };
                let rendered = Self::spec_render(s1, env2, p);
                let o1 = spec_fx_mul(rendered.1, env2);
                let o2 = spec_fx_mul(o1, s.velocity as int);
                let o3 = spec_fx_mul(o2, s.human_amp as int);
                (rendered.0, spec_fast_tanh(o3))
            }
        }
    }

    /// Render one sample for this voice.
    pub fn process(&mut self, slot_params: &DrumSlotParams, master: &MasterParams) -> (r: i64)
        requires
            old(self).wf(),
            slot_params.wf(),
            master.wf(),
        ensures
            ({
                let (s2, out) = DrumSlot::spec_process(*old(self), *slot_params);
                &&& *final(self) == s2
                &&& r == out
            }),
            -SCALE <= r <= SCALE,
            final(self).wf(),
            final(self).kind == old(self).kind,
            final(self).sample_rate == old(self).sample_rate,
            !old(self).active ==> r == 0 && *final(self) == *old(self),
            old(self).active ==> final(self).env < old(self).env
                || (old(self).env == 0 && final(self).env == 0),
    {
        proof {
            reveal(DrumSlot::spec_process);
            reveal(DrumSlot::spec_render);
        }
        if !self.active {
            return 0;
        }
        let env2 = fx_mul(self.env, self.decay_coef);
        proof {
            let e = old(self).env as int;
            let c = old(self).decay_coef as int;
            if e >= 1 {
                reveal(crate::fixed::spec_fx_mul);
                assert(e * c <= e * ((SCALE as int) - 1)) by (nonlinear_arith)
                    requires
                        1 <= e,
                        0 <= c <= (SCALE as int) - 1,
                ;
                lemma_div_is_ordered(e * c, e * ((SCALE as int) - 1), SCALE as int);
                vstd::arithmetic::div_mod::lemma_fundamental_div_mod_converse_div(
                    e * ((SCALE as int) - 1), SCALE as int, e - 1, (SCALE as int) - e);
            } else {
                assert(0 * c == 0) by (nonlinear_arith);
            }
        }
        self.env = env2;
        if 10000 * env2 < SCALE {
            self.env = 0;
            self.active = false;
            return 0;
        }
        let env = env2;
        let sample = match self.kind {
            SlotType::Kick => self.render_kick(env, slot_params),
            SlotType::Snare => self.render_snare(env, slot_params),
            SlotType::Clap => self.render_clap(env, slot_params),
            SlotType::HatClosed => self.render_hat_closed(env, slot_params),
            SlotType::HatOpen => self.render_hat_open(env, slot_params),
            SlotType::Tom => self.render_tom(env, slot_params),
            SlotType::Perc1 => self.render_perc1(env, slot_params),
            SlotType::Perc2 => self.render_perc2(env, slot_params),
        };
        let o1 = fx_mul(sample, env);
        let o2 = fx_mul(o1, self.velocity);
        let o3 = fx_mul(o2, self.human_amp);
        proof {
            crate::fixed::lemma_fx_mul_bound(o2 as int, self.human_amp as int, o3 as int,
                4 * (SCALE as int), 2 * (SCALE as int));
        }
        fast_tanh(o3)
    }
}

/// The voice state and the output samples after n consecutive `process`
/// calls under a fixed parameter snapshot.
pub open spec fn spec_process_seq(s: DrumSlot, p: DrumSlotParams, n: nat) -> (
    DrumSlot,
    Seq<int>,
)
    decreases n,
{
    if n == 0 {
        (s, Seq::<int>::empty())
    } else {
        let step = DrumSlot::spec_process(s, p);
        let rest = spec_process_seq(step.0, p, (n - 1) as nat);
        (rest.0, seq![step.1] + rest.1)
    }
}

/// Determinism: a voice's entire rendered output is a function of its
/// initial state (generator seed included), its sample rate and the
/// parameter snapshot. Two equal voices, triggered with the same velocity
/// and then rendered for any number of samples, go through bit-identical
/// states and produce bit-identical sample sequences — `trigger` and
/// `process` pin their results to `spec_trigger` and `spec_process`, and
/// those are functions of their arguments alone.
pub proof fn lemma_voice_deterministic(
    a: DrumSlot,
    b: DrumSlot,
    velocity: int,
    p: DrumSlotParams,
    m: MasterParams,
    n: nat,
)
    requires
        a == b,
    ensures
        DrumSlot::spec_trigger(a, velocity, p, m) == DrumSlot::spec_trigger(b, velocity, p, m),
        spec_process_seq(DrumSlot::spec_trigger(a, velocity, p, m), p, n)
            == spec_process_seq(DrumSlot::spec_trigger(b, velocity, p, m), p, n),
{
}

} // verus!
