//! Machine-level behavior: master-bus bypass, the pan law, compressor gain
//! reduction, simultaneous triggers, reverb stability, the note map and the
//! factory kits.

use drumini::bus::{SimpleComp, SimpleReverb};
use drumini::engine::{pan_to_gains, note_to_slot, match_slot_params, Drumini, NoteOn};
use drumini::fixed::SCALE;
use drumini::kits::factory_kits;
use drumini::math::{exp_neg, exp2, fast_tanh, sin_turn};
use drumini::params::{DrumParams, DrumSlotParams, MasterParams};

#[test]
fn compressor_bypass_is_exact() {
    let mut c = SimpleComp::new(44100);
    let inputs = [
        (0i64, 0i64),
        (SCALE, -SCALE),
        (15 * SCALE, 3),
        (-7 * SCALE, 16 * SCALE),
        // the bypass is exact even past the engaged stage's headroom
        (1000 * SCALE, -1000 * SCALE),
    ];
    for (l, r) in inputs {
        assert_eq!(c.process(l, r, 0), (l, r));
        // just below the epsilon of one thousandth
        assert_eq!(c.process(l, r, SCALE / 1000 - 1), (l, r));
    }
}

#[test]
fn reverb_bypass_is_exact() {
    let mut rv = SimpleReverb::new(44100);
    let inputs = [(0i64, 0i64), (SCALE, -SCALE), (15 * SCALE, 3), (1000 * SCALE, -1000 * SCALE)];
    for (l, r) in inputs {
        assert_eq!(rv.process(l, r, 0), (l, r));
        assert_eq!(rv.process(l, r, SCALE / 1000 - 1), (l, r));
    }
}

#[test]
fn full_machine_bypass_returns_dry_mix() {
    // With drive, compression and reverb all zero the master chain is an
    // exact bypass: the rendered block is the plain voice mix, and neither
    // the compressor nor the reverb state moves.
    let mut m1 = Drumini::new();
    let mut m2 = Drumini::new();
    let mut p = DrumParams::default();
    p.master = MasterParams::from_values(0, 0, 0, 0, SCALE / 2);
    m1.set_params(p);
    let mut p2 = DrumParams::default();
    p2.master = MasterParams::from_values(0, 0, 0, 0, SCALE / 2);
    m2.set_params(p2);
    let events1 = vec![NoteOn { frame: 0, note: 36, velocity: SCALE }];
    let events2 = vec![NoteOn { frame: 0, note: 36, velocity: SCALE }];
    let (l1, r1) = m1.process_block(&events1, 256);
    let (l2, r2) = m2.process_block(&events2, 256);
    assert_eq!(l1, l2);
    assert_eq!(r1, r2);
    // and the compressor / reverb state did not move
    assert_eq!(m1.comp.env, 0);
    assert_eq!(m1.comp.gain_smooth, SCALE);
    assert_eq!(m1.reverb.idx, 0);
}

#[test]
fn pan_law_unit_circle() {
    let pans = [
        -SCALE,
        -SCALE / 2,
        -SCALE / 3,
        0,
        SCALE / 5,
        SCALE / 2,
        SCALE,
    ];
    let s2 = (SCALE as i128) * (SCALE as i128);
    for pan in pans {
        let (gl, gr) = pan_to_gains(pan);
        assert!(gl >= 0 && gl <= SCALE);
        assert!(gr >= 0 && gr <= SCALE);
        let sum = (gl as i128) * (gl as i128) + (gr as i128) * (gr as i128);
        assert!(sum <= s2, "pan {}: sum above one", pan);
        assert!(sum >= s2 - 4 * (SCALE as i128) - 2, "pan {}: sum below one", pan);
    }
}

#[test]
fn pan_center_is_balanced_and_sides_mirror() {
    let (gl0, gr0) = pan_to_gains(0);
    assert_eq!(gl0, gr0);
    for pan in [SCALE / 7, SCALE / 3, SCALE / 2, SCALE] {
        let (gl_p, gr_p) = pan_to_gains(pan);
        let (gl_n, gr_n) = pan_to_gains(-pan);
        assert_eq!(gl_p, gr_n);
        assert_eq!(gr_p, gl_n);
        // panning right must favor the right channel
        assert!(gr_p >= gl_p);
    }
    // hard right is fully right
    let (gl, gr) = pan_to_gains(SCALE);
    assert!(gl < SCALE / 50);
    assert!(gr > SCALE - SCALE / 1000);
}

#[test]
fn compressor_never_increases_magnitude() {
    let mut c = SimpleComp::new(44100);
    let amt = SCALE / 2;
    let mut x: i64 = 15 * SCALE;
    for i in 0..4000 {
        let l = if i % 3 == 0 { x } else { -x };
        let r = x / 2;
        let (ol, or) = c.process(l, r, amt);
        assert!(ol.abs() <= l.abs());
        assert!(or.abs() <= r.abs());
        x = if x > SCALE { x - SCALE / 8 } else { 15 * SCALE };
    }
}

#[test]
fn compressor_reduces_loud_steady_signal() {
    let mut c = SimpleComp::new(44100);
    let amt = SCALE;
    let l = 8 * SCALE; // about +18 dB, far over the -12 dB threshold
    let mut last = (0i64, 0i64);
    for _ in 0..44100 {
        last = c.process(l, l, amt);
    }
    // settled gain must be well below unity
    assert!(last.0 < l / 2, "no gain reduction: {} of {}", last.0, l);
    assert!(last.0 > 0);
}

#[test]
fn simultaneous_triggers_both_sound_at_frame_zero() {
    let mut m = Drumini::new();
    let events = vec![
        NoteOn { frame: 0, note: 38, velocity: SCALE },
        NoteOn { frame: 0, note: 42, velocity: SCALE },
    ];
    let (l, r) = m.process_block(&events, 64);
    assert_eq!(l.len(), 64);
    assert_eq!(r.len(), 64);
    // both voices fired on frame zero and are decaying
    assert!(m.slots[1].active);
    assert!(m.slots[3].active);
    assert!(m.slots[1].env < SCALE);
    assert!(m.slots[3].env < SCALE);
    // the untouched voices stayed silent
    assert!(!m.slots[0].active);
    assert!(!m.slots[7].active);
    // the block carries signal from the very first frames
    assert!(l.iter().take(8).any(|s| *s != 0) || r.iter().take(8).any(|s| *s != 0));
}

#[test]
fn events_fire_on_their_exact_frame() {
    let mut m = Drumini::new();
    let events = vec![NoteOn { frame: 32, note: 36, velocity: SCALE }];
    let (l, r) = m.process_block(&events, 64);
    for i in 0..32 {
        assert_eq!(l[i], 0);
        assert_eq!(r[i], 0);
    }
    assert!(l[32..].iter().any(|s| *s != 0) || r[32..].iter().any(|s| *s != 0));
}

#[test]
fn unmapped_notes_are_ignored() {
    let mut m = Drumini::new();
    let events = vec![NoteOn { frame: 0, note: 60, velocity: SCALE }];
    let (l, r) = m.process_block(&events, 32);
    assert!(l.iter().all(|s| *s == 0));
    assert!(r.iter().all(|s| *s == 0));
    for i in 0..8 {
        assert!(!m.slots[i].active);
    }
}

#[test]
fn reverb_feedback_decays_after_priming() {
    let mut rv = SimpleReverb::new(8000); // 2000-sample lines
    // prime with a strong burst, then feed silence at full amount
    for _ in 0..64 {
        rv.process(16 * SCALE, 16 * SCALE, SCALE);
    }
    let mut peaks: Vec<i64> = Vec::new();
    for _window in 0..6 {
        let mut peak: i64 = 0;
        for _ in 0..2000 {
            let (ol, or) = rv.process(0, 0, SCALE);
            peak = peak.max(ol.abs()).max(or.abs());
            assert!(ol.abs() <= 48 * SCALE);
            assert!(or.abs() <= 48 * SCALE);
        }
        peaks.push(peak);
    }
    // energy decays round trip after round trip and eventually dies
    assert!(peaks[0] > 0);
    assert!(peaks[5] < peaks[0] / 4, "peaks: {:?}", peaks);
}

#[test]
fn note_map_matches_the_standard_layout() {
    assert_eq!(note_to_slot(36), Some(0));
    assert_eq!(note_to_slot(38), Some(1));
    assert_eq!(note_to_slot(39), Some(2));
    assert_eq!(note_to_slot(42), Some(3));
    assert_eq!(note_to_slot(46), Some(4));
    assert_eq!(note_to_slot(43), Some(5));
    assert_eq!(note_to_slot(45), Some(5));
    assert_eq!(note_to_slot(47), Some(5));
    assert_eq!(note_to_slot(49), Some(6));
    assert_eq!(note_to_slot(51), Some(7));
    assert_eq!(note_to_slot(35), None);
    assert_eq!(note_to_slot(0), None);
}

#[test]
fn slot_params_select_the_right_record() {
    let p = DrumParams::default();
    assert_eq!(match_slot_params(0, &p).decay, p.kick.decay);
    assert_eq!(match_slot_params(3, &p).decay, p.hat_closed.decay);
    assert_eq!(match_slot_params(7, &p).decay, p.perc2.decay);
    // defensive fallback
    assert_eq!(match_slot_params(99, &p).decay, p.kick.decay);
}

#[test]
fn from_values_clamps_out_of_range_inputs() {
    let sp = DrumSlotParams::from_values(
        10 * SCALE, -5 * SCALE, 2 * SCALE, 9000 * SCALE, -SCALE, 100 * SCALE, 3 * SCALE);
    assert_eq!(sp.level, 2 * SCALE);
    assert_eq!(sp.pan, -SCALE);
    assert_eq!(sp.tone, SCALE);
    assert_eq!(sp.decay, 2000 * SCALE);
    assert_eq!(sp.snap, 0);
    assert_eq!(sp.pitch, 24 * SCALE);
    assert_eq!(sp.humanize, SCALE);
    let mp = MasterParams::from_values(-SCALE, 2 * SCALE, SCALE / 2, -40 * SCALE, SCALE / 4);
    assert_eq!(mp.drive, 0);
    assert_eq!(mp.comp, SCALE);
    assert_eq!(mp.reverb, SCALE / 2);
    assert_eq!(mp.kit_pitch, -12 * SCALE);
    assert_eq!(mp.velocity_curve, SCALE / 4);
}

#[test]
fn factory_kits_are_complete() {
    let kits = factory_kits();
    assert_eq!(kits.len(), 5);
    assert_eq!(kits[0].name, "Init");
    assert_eq!(kits[1].name, "808 Clean");
    assert_eq!(kits[2].name, "EDM Punch");
    assert_eq!(kits[3].name, "Minimal Tech");
    assert_eq!(kits[4].name, "Lo-Fi");
    // a couple of spot values from the tables
    assert_eq!(kits[1].params.kick.level, SCALE); // 1.0
    assert_eq!(kits[1].params.kick.decay, 360 * SCALE);
    assert_eq!(kits[1].params.kick.pitch, -2 * SCALE);
    assert_eq!(kits[3].params.master.reverb, SCALE / 10);
    assert_eq!(kits[4].params.master.kit_pitch, -SCALE);
}

#[test]
fn math_primitives_hit_reference_values() {
    let s = SCALE as f64;
    // exp_neg(1) is e^-1
    let e1 = exp_neg(SCALE) as f64 / s;
    assert!((e1 - (-1.0f64).exp()).abs() < 1e-6);
    // exp2 of 1 and -1
    assert!((exp2(SCALE) as f64 / s - 2.0).abs() < 1e-5);
    assert!((exp2(-SCALE) as f64 / s - 0.5).abs() < 1e-5);
    assert_eq!(exp2(0), SCALE);
    // a quarter turn of sine is one, half a turn is zero
    assert!((sin_turn(SCALE / 4) as f64 / s - 1.0).abs() < 1e-3);
    assert!((sin_turn(SCALE / 2) as f64 / s).abs() < 1e-3);
    assert!((sin_turn(3 * (SCALE / 4)) as f64 / s + 1.0).abs() < 1e-3);
    // the saturator is odd, zero at zero, and clamps at three
    assert_eq!(fast_tanh(0), 0);
    assert_eq!(fast_tanh(3 * SCALE), SCALE);
    assert_eq!(fast_tanh(-3 * SCALE), -SCALE);
    for x in [SCALE / 3, SCALE, 2 * SCALE] {
        assert_eq!(fast_tanh(-x), -fast_tanh(x));
        let got = fast_tanh(x) as f64 / s;
        let want = (x as f64 / s).tanh();
        assert!((got - want).abs() < 0.03, "tanh({}) {} vs {}", x, got, want);
    }
}

#[test]
fn fresh_machine_is_silent_with_default_kit() {
    let mut m = Drumini::new();
    let d = DrumParams::default();
    assert_eq!(m.sample_rate, 44100);
    assert_eq!(m.params.kick.decay, d.kick.decay);
    assert_eq!(m.params.hat_open.decay, d.hat_open.decay);
    assert_eq!(m.params.master.comp, d.master.comp);
    assert_eq!(m.comp.sr, 44100);
    assert_eq!(m.comp.env, 0);
    assert_eq!(m.comp.gain_smooth, SCALE);
    assert_eq!(m.reverb.sr, 44100);
    assert_eq!(m.reverb.idx, 0);
    assert!(m.reverb.buf_l.iter().all(|s| *s == 0));
    for i in 0..8 {
        assert!(!m.slots[i].active);
    }
    let (l, r) = m.process_block(&Vec::new(), 64);
    assert!(l.iter().all(|s| *s == 0));
    assert!(r.iter().all(|s| *s == 0));
}

#[test]
fn rate_change_silences_the_whole_machine() {
    let mut m = Drumini::new();
    let events = vec![NoteOn { frame: 0, note: 36, velocity: SCALE }];
    m.process_block(&events, 128);
    assert!(m.slots[0].active);
    m.initialize(48000);
    assert_eq!(m.sample_rate, 48000);
    assert_eq!(m.comp.sr, 48000);
    assert_eq!(m.reverb.sr, 48000);
    assert_eq!(m.reverb.buf_l.len(), 12000);
    assert_eq!(m.reverb.idx, 0);
    assert_eq!(m.comp.env, 0);
    assert_eq!(m.comp.gain_smooth, SCALE);
    assert!(m.reverb.buf_l.iter().all(|s| *s == 0));
    assert!(m.reverb.buf_r.iter().all(|s| *s == 0));
    for i in 0..8 {
        assert!(!m.slots[i].active);
        assert_eq!(m.slots[i].sample_rate, 48000);
    }
    let (l, r) = m.process_block(&Vec::new(), 64);
    assert!(l.iter().all(|s| *s == 0));
    assert!(r.iter().all(|s| *s == 0));
}

#[test]
fn reset_clears_voices_and_bus_history() {
    let mut m = Drumini::new();
    let mut p = DrumParams::default();
    p.master = MasterParams::from_values(SCALE / 2, SCALE, SCALE, 0, SCALE / 2);
    m.set_params(p);
    let events = vec![NoteOn { frame: 0, note: 36, velocity: SCALE }];
    m.process_block(&events, 256);
    assert!(m.slots[0].active);
    assert!(m.comp.env > 0);
    assert!(m.reverb.buf_l.iter().any(|s| *s != 0));
    let taps = (m.reverb.d1_l, m.reverb.d2_l, m.reverb.d1_r, m.reverb.d2_r);
    m.reset();
    for i in 0..8 {
        assert!(!m.slots[i].active);
        assert_eq!(m.slots[i].env, 0);
    }
    assert_eq!(m.comp.env, 0);
    assert_eq!(m.comp.gain_smooth, SCALE);
    assert_eq!(m.reverb.idx, 0);
    assert!(m.reverb.buf_l.iter().all(|s| *s == 0));
    assert!(m.reverb.buf_r.iter().all(|s| *s == 0));
    // length and taps survive a reset (unlike a rate change)
    assert_eq!(m.reverb.buf_l.len(), 11025);
    assert_eq!(taps, (m.reverb.d1_l, m.reverb.d2_l, m.reverb.d1_r, m.reverb.d2_r));
}

#[test]
fn whole_machine_two_runs_agree() {
    let mut a = Drumini::new();
    let mut b = Drumini::new();
    let mk = || vec![
        NoteOn { frame: 0, note: 36, velocity: SCALE },
        NoteOn { frame: 10, note: 42, velocity: SCALE / 2 },
        NoteOn { frame: 10, note: 38, velocity: SCALE / 3 },
        NoteOn { frame: 100, note: 51, velocity: SCALE },
    ];
    let ea = mk();
    let eb = mk();
    let (la, ra) = a.process_block(&ea, 512);
    let (lb, rb) = b.process_block(&eb, 512);
    assert_eq!(la, lb);
    assert_eq!(ra, rb);
    assert!(la.iter().any(|s| *s != 0));
}
