//! Voice-level behavior: determinism, the inactive-voice invariant,
//! envelope monotonicity, retrigger reset and the kick reference scenario.

use drumini::drum_engine::{DrumSlot, SlotType};
use drumini::fixed::SCALE;
use drumini::params::{DrumSlotParams, MasterParams};

fn test_slot_params() -> DrumSlotParams {
    // tone 0.5, decay 300 ms, snap 0.5, no pitch offset, no humanize
    DrumSlotParams::from_values(
        SCALE * 9 / 10,
        0,
        SCALE / 2,
        300 * SCALE,
        SCALE / 2,
        0,
        0,
    )
}

fn test_master() -> MasterParams {
    // velocity curve 0.5, everything else off
    MasterParams::from_values(0, 0, 0, 0, SCALE / 2)
}

#[test]
fn determinism_two_runs_bit_identical() {
    let sp = test_slot_params();
    let m = test_master();
    let mut a = DrumSlot::new(SlotType::Snare, 44100);
    let mut b = DrumSlot::new(SlotType::Snare, 44100);
    a.trigger(SCALE, &sp, &m);
    b.trigger(SCALE, &sp, &m);
    for _ in 0..2000 {
        let ya = a.process(&sp, &m);
        let yb = b.process(&sp, &m);
        assert_eq!(ya, yb);
    }
    assert_eq!(a.env, b.env);
    assert_eq!(a.noise_state, b.noise_state);
    assert_eq!(a.osc_phase, b.osc_phase);
}

#[test]
fn determinism_with_humanize_same_seed() {
    // Humanization draws from the voice's own generator, so equal seeds
    // still give bit-identical hits.
    let sp = DrumSlotParams::from_values(SCALE, 0, SCALE / 2, 200 * SCALE, SCALE / 2, 0, SCALE);
    let m = test_master();
    let mut a = DrumSlot::new(SlotType::Perc1, 48000);
    let mut b = DrumSlot::new(SlotType::Perc1, 48000);
    a.trigger(SCALE / 2, &sp, &m);
    b.trigger(SCALE / 2, &sp, &m);
    assert_eq!(a.human_amp, b.human_amp);
    assert_eq!(a.human_pitch, b.human_pitch);
    assert_eq!(a.human_decay_mul, b.human_decay_mul);
    for _ in 0..500 {
        assert_eq!(a.process(&sp, &m), b.process(&sp, &m));
    }
}

#[test]
fn inactive_voice_outputs_exact_zero() {
    let sp = test_slot_params();
    let m = test_master();
    let mut v = DrumSlot::new(SlotType::Kick, 44100);
    for _ in 0..64 {
        assert_eq!(v.process(&sp, &m), 0);
    }
    assert!(!v.active);
}

#[test]
fn decayed_voice_goes_silent_and_stays_silent() {
    // A 10 ms hit at 44100 Hz crosses the 1e-4 floor in well under a
    // second of samples.
    let sp = DrumSlotParams::from_values(SCALE, 0, SCALE / 2, 10 * SCALE, SCALE / 2, 0, 0);
    let m = test_master();
    let mut v = DrumSlot::new(SlotType::HatClosed, 44100);
    v.trigger(SCALE, &sp, &m);
    for _ in 0..44100 {
        v.process(&sp, &m);
    }
    assert!(!v.active);
    assert_eq!(v.env, 0);
    for _ in 0..256 {
        assert_eq!(v.process(&sp, &m), 0);
    }
}

#[test]
fn envelope_strictly_decreases_while_active() {
    let sp = test_slot_params();
    let m = test_master();
    let mut v = DrumSlot::new(SlotType::Tom, 44100);
    v.trigger(SCALE, &sp, &m);
    let mut prev = v.env;
    assert_eq!(prev, SCALE);
    for _ in 0..5000 {
        v.process(&sp, &m);
        if v.active {
            assert!(v.env < prev);
            assert!(v.env > 0);
        } else {
            assert_eq!(v.env, 0);
        }
        prev = v.env;
    }
}

#[test]
fn retrigger_resets_envelope_and_activity() {
    let sp = test_slot_params();
    let m = test_master();
    let mut v = DrumSlot::new(SlotType::Clap, 44100);
    v.trigger(SCALE, &sp, &m);
    for _ in 0..1000 {
        v.process(&sp, &m);
    }
    assert!(v.active);
    assert!(v.env < SCALE);
    v.trigger(SCALE / 2, &sp, &m);
    assert!(v.active);
    assert_eq!(v.env, SCALE);
}

#[test]
fn kick_reference_scenario() {
    // Kick, full velocity, tone 0.5, snap 0.5, 300 ms decay, no pitch
    // offsets, velocity curve 0.5, 44100 Hz.
    let sp = test_slot_params();
    let m = test_master();
    let mut v = DrumSlot::new(SlotType::Kick, 44100);
    v.trigger(SCALE, &sp, &m);

    // decay coefficient close to exp(-1 / (0.3 * 44100))
    let coef = v.decay_coef as f64 / SCALE as f64;
    let expected = (-1.0f64 / (0.3 * 44100.0)).exp();
    assert!((coef - expected).abs() < 1e-6, "coef {} vs {}", coef, expected);

    // base frequency exactly 55 Hz: no pitch offset at all
    assert_eq!(v.base_freq, 55 * SCALE);

    // full velocity stays full through the curve
    assert_eq!(v.velocity, SCALE);

    // after one sample the envelope equals the decay coefficient
    v.process(&sp, &m);
    assert_eq!(v.env, v.decay_coef);

    // the voice stays active for about 0.3 * 44100 * ln(1e4) samples
    let mut n: u64 = 1;
    while v.active {
        v.process(&sp, &m);
        n += 1;
        assert!(n < 1_000_000);
    }
    assert!(n > 115_000, "went silent after {} samples", n);
    assert!(n < 130_000, "still active after {} samples", n);
}

#[test]
fn velocity_curve_shapes_partial_velocities() {
    let sp = test_slot_params();
    // velocity_curve 1.0 -> exponent 1.5
    let m = MasterParams::from_values(0, 0, 0, 0, SCALE);
    let mut v = DrumSlot::new(SlotType::Snare, 44100);
    v.trigger(SCALE / 2, &sp, &m);
    let got = v.velocity as f64 / SCALE as f64;
    let expected = 0.5f64.powf(1.5);
    assert!((got - expected).abs() < 1e-3, "velocity {} vs {}", got, expected);

    // full velocity maps to one for any curve
    v.trigger(SCALE, &sp, &m);
    assert_eq!(v.velocity, SCALE);
}

#[test]
fn humanize_zero_is_neutral() {
    let sp = test_slot_params();
    let m = test_master();
    let mut v = DrumSlot::new(SlotType::Perc2, 44100);
    v.trigger(SCALE, &sp, &m);
    assert_eq!(v.human_amp, SCALE);
    assert_eq!(v.human_pitch, 0);
    assert_eq!(v.human_decay_mul, SCALE);
}

#[test]
fn humanize_draws_stay_in_range() {
    let sp = DrumSlotParams::from_values(SCALE, 0, SCALE / 2, 200 * SCALE, SCALE / 2, 0, SCALE);
    let m = test_master();
    let mut v = DrumSlot::new(SlotType::Snare, 44100);
    for _ in 0..50 {
        v.trigger(SCALE, &sp, &m);
        let amp = v.human_amp as f64 / SCALE as f64;
        let pitch = v.human_pitch as f64 / SCALE as f64;
        let dec = v.human_decay_mul as f64 / SCALE as f64;
        assert!(amp >= 0.85 - 1e-9 && amp <= 1.15 + 1e-9);
        assert!(pitch >= -3.0 - 1e-9 && pitch <= 3.0 + 1e-9);
        assert!(dec >= 0.5 - 1e-9 && dec <= 1.5 + 1e-9);
        // drain a few samples so successive hits see different seeds
        for _ in 0..7 {
            v.process(&sp, &m);
        }
    }
}

#[test]
fn voice_output_is_bounded_by_one() {
    let sp = DrumSlotParams::from_values(2 * SCALE, 0, SCALE, 2000 * SCALE, SCALE, 24 * SCALE,
        SCALE);
    let m = MasterParams::from_values(SCALE, SCALE, SCALE, 12 * SCALE, SCALE);
    let mut v = DrumSlot::new(SlotType::HatOpen, 44100);
    v.trigger(SCALE, &sp, &m);
    for _ in 0..5000 {
        let y = v.process(&sp, &m);
        assert!(y >= -SCALE && y <= SCALE);
    }
}
