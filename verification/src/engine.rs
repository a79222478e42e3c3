//! The assembled drum machine: eight voices, equal-power panning, the
//! master chain (saturation, compressor, reverb), a fixed note map and a
//! sample-accurate block scheduler.

use vstd::prelude::*;
use crate::fixed::{SCALE, fx_mul, fx_div, fx_clamp, lemma_fx_mul_bound};
use crate::fixed::{spec_clamp, spec_fx_mul, spec_fx_div};
use crate::math::{pan_sin, isqrt_u128, fast_tanh, lemma_isqrt_exists, lemma_pan_sin_odd};
use crate::math::{spec_pan_sin, spec_isqrt, spec_fast_tanh};
use crate::params::{DrumParams, DrumSlotParams};
use crate::drum_engine::{DrumSlot, N_SLOTS, slot_type_of, spec_slot_type};
use crate::bus::{SimpleComp, SimpleReverb, AMT_EPS, spec_tap};
use crate::kits::spec_kit_init;

verus! {

/// The two channel gains for a pan position: left and right amplitudes on
/// the equal-power quarter circle.
pub open spec fn spec_pan_gains(p: int) -> (int, int) {
    let s = spec_pan_sin(p);
    let qr = ((SCALE as int) + s) / 2;
    (
        spec_isqrt(((SCALE as int) - qr) * (SCALE as int)),
        spec_isqrt(qr * (SCALE as int)),
    )
}

/// Equal-power panning: -1 is hard left, 0 center, 1 hard right.
pub fn pan_to_gains(pan: i64) -> (g: (i64, i64))
    ensures
        g.0 == spec_pan_gains(spec_clamp(pan as int, -(SCALE as int), SCALE as int)).0,
        g.1 == spec_pan_gains(spec_clamp(pan as int, -(SCALE as int), SCALE as int)).1,
        0 <= g.0 <= SCALE,
        0 <= g.1 <= SCALE,
        (SCALE as int) * (SCALE as int) - 4 * (SCALE as int) - 2
            <= (g.0 as int) * (g.0 as int) + (g.1 as int) * (g.1 as int),
        (g.0 as int) * (g.0 as int) + (g.1 as int) * (g.1 as int)
            <= (SCALE as int) * (SCALE as int),
        pan == 0 ==> g.0 == g.1,
{
    let p = fx_clamp(pan, -SCALE, SCALE);
    let s = pan_sin(p);
    let qr = (((SCALE + s) as u64) / 2) as i64;
    let ql = SCALE - qr;
    proof {
        assert((qr as u128) * (SCALE as u128) <= (0x1_0000_0000 as u128) * (0x1_0000_0000
            as u128)) by (nonlinear_arith)
            requires
                0 <= qr <= 0x1_0000_0000,
        ;
        assert((ql as u128) * (SCALE as u128) <= (0x1_0000_0000 as u128) * (0x1_0000_0000
            as u128)) by (nonlinear_arith)
            requires
                0 <= ql <= 0x1_0000_0000,
        ;
    }
    let gl = isqrt_u128((ql as u128) * (SCALE as u128));
    let gr = isqrt_u128((qr as u128) * (SCALE as u128));
    proof {
        if gl > SCALE {
            assert((gl as int) * (gl as int) > (0x1_0000_0000int) * 0x1_0000_0000)
                by (nonlinear_arith)
                requires
                    gl > 0x1_0000_0000 as u64,
            ;
            assert((ql as int) * (SCALE as int) <= (0x1_0000_0000int) * 0x1_0000_0000)
                by (nonlinear_arith)
                requires
                    0 <= ql <= 0x1_0000_0000,
            ;
        }
        if gr > SCALE {
            assert((gr as int) * (gr as int) > (0x1_0000_0000int) * 0x1_0000_0000)
                by (nonlinear_arith)
                requires
                    gr > 0x1_0000_0000 as u64,
            ;
            assert((qr as int) * (SCALE as int) <= (0x1_0000_0000int) * 0x1_0000_0000)
                by (nonlinear_arith)
                requires
                    0 <= qr <= 0x1_0000_0000,
            ;
        }
        assert((ql as int) * (SCALE as int) + (qr as int) * (SCALE as int)
            == (SCALE as int) * (SCALE as int)) by (nonlinear_arith)
            requires
                ql + qr == 0x1_0000_0000,
                SCALE == 0x1_0000_0000,
        ;
        assert(((gl as int) + 1) * ((gl as int) + 1)
            == (gl as int) * (gl as int) + 2 * (gl as int) + 1) by (nonlinear_arith);
        assert(((gr as int) + 1) * ((gr as int) + 1)
            == (gr as int) * (gr as int) + 2 * (gr as int) + 1) by (nonlinear_arith);
    }
    (gl as i64, gr as i64)
}

/// The equal-power pan law: for any pan position, the two gains lie on the
/// unit circle (their squares sum to one, up to the fixed-point rounding of
/// the two square roots), the center pans both channels equally, and
/// mirrored pan positions swap the two gains exactly.
pub proof fn lemma_pan_law(p: int)
    requires
        -SCALE <= p <= SCALE,
    ensures
        ({
            let g = spec_pan_gains(p);
            &&& 0 <= g.0 <= SCALE
            &&& 0 <= g.1 <= SCALE
            &&& (SCALE as int) * (SCALE as int) - 4 * (SCALE as int) - 2 <= g.0 * g.0 + g.1 * g.1
            &&& g.0 * g.0 + g.1 * g.1 <= (SCALE as int) * (SCALE as int)
        }),
        spec_pan_gains(-p).0 == spec_pan_gains(p).1,
        spec_pan_gains(-p).1 == spec_pan_gains(p).0,
        p == 0 ==> spec_pan_gains(p).0 == spec_pan_gains(p).1,
{
    let s = spec_pan_sin(p);
    assert(-SCALE <= s <= SCALE && s % 2 == 0);
    let qr = ((SCALE as int) + s) / 2;
    let k = s / 2;
    vstd::arithmetic::div_mod::lemma_fundamental_div_mod(s, 2);
    vstd::arithmetic::div_mod::lemma_fundamental_div_mod_converse_div(
        (SCALE as int) + s, 2, (SCALE as int) / 2 + k, 0);
    assert(qr == (SCALE as int) / 2 + k);
    assert(0 <= qr <= SCALE);
    let ql = (SCALE as int) - qr;
    lemma_isqrt_exists(ql * (SCALE as int));
    lemma_isqrt_exists(qr * (SCALE as int));
    assert(ql * (SCALE as int) >= 0 && qr * (SCALE as int) >= 0) by (nonlinear_arith)
        requires
            0 <= ql,
            0 <= qr,
    ;
    let gl = spec_isqrt(ql * (SCALE as int));
    let gr = spec_isqrt(qr * (SCALE as int));
    assert(ql * (SCALE as int) <= (SCALE as int) * (SCALE as int)
        && qr * (SCALE as int) <= (SCALE as int) * (SCALE as int)) by (nonlinear_arith)
        requires
            0 <= ql <= (SCALE as int),
            0 <= qr <= (SCALE as int),
    ;
    if gl > SCALE {
        assert(gl * gl > (SCALE as int) * (SCALE as int)) by (nonlinear_arith)
            requires
                gl > (SCALE as int),
                SCALE == 0x1_0000_0000,
        ;
    }
    if gr > SCALE {
        assert(gr * gr > (SCALE as int) * (SCALE as int)) by (nonlinear_arith)
            requires
                gr > (SCALE as int),
                SCALE == 0x1_0000_0000,
        ;
    }
    assert(ql * (SCALE as int) + qr * (SCALE as int) == (SCALE as int) * (SCALE as int))
        by (nonlinear_arith)
        requires
            ql + qr == (SCALE as int),
            SCALE == 0x1_0000_0000,
    ;
    assert((gl + 1) * (gl + 1) == gl * gl + 2 * gl + 1) by (nonlinear_arith);
    assert((gr + 1) * (gr + 1) == gr * gr + 2 * gr + 1) by (nonlinear_arith);
    lemma_pan_sin_odd(p);
    let s2 = spec_pan_sin(-p);
    assert(s2 == -s);
    vstd::arithmetic::div_mod::lemma_fundamental_div_mod_converse_div(
        (SCALE as int) - s, 2, (SCALE as int) / 2 - k, 0);
    assert(((SCALE as int) + s2) / 2 == (SCALE as int) / 2 - k);
    assert((SCALE as int) - (((SCALE as int) + s2) / 2) == qr);
}

/// The fixed mapping from note numbers to slot indices: the common drum map
/// (36 kick, 38 snare, 39 clap, 42/46 hats, 43/45/47 toms, 49/51 percussion).
pub open spec fn spec_note_to_slot(note: u8) -> Option<usize> {
    if note == 36 {
        Some(0usize)
    } else if note == 38 {
        Some(1usize)
    } else if note == 39 {
        Some(2usize)
    } else if note == 42 {
        Some(3usize)
    } else if note == 46 {
        Some(4usize)
    } else if note == 43 || note == 45 || note == 47 {
        Some(5usize)
    } else if note == 49 {
        Some(6usize)
    } else if note == 51 {
        Some(7usize)
    } else {
        None
    }
}

/// Fixed mapping from note numbers to slot indices.
pub fn note_to_slot(note: u8) -> (r: Option<usize>)
    ensures
        r == spec_note_to_slot(note),
        r is Some ==> r.unwrap() < N_SLOTS,
{
    match note {
        36 => Some(0),
        38 => Some(1),
        39 => Some(2),
        42 => Some(3),
        46 => Some(4),
        43 | 45 | 47 => Some(5),
        49 => Some(6),
        51 => Some(7),
        _ => None,
    }
}

/// The slot-parameter record for a slot index; an out-of-range index falls
/// back to the kick, mirroring the engine's defensive stance.
pub open spec fn spec_slot_params(index: int, params: DrumParams) -> DrumSlotParams {
    if index == 0 {
        params.kick
    } else if index == 1 {
        params.snare
    } else if index == 2 {
        params.clap
    } else if index == 3 {
        params.hat_closed
    } else if index == 4 {
        params.hat_open
    } else if index == 5 {
        params.tom
    } else if index == 6 {
        params.perc1
    } else if index == 7 {
        params.perc2
    } else {
        params.kick
    }
}

/// Return the slot parameters for a slot index.
pub fn match_slot_params<'a>(index: usize, params: &'a DrumParams) -> (r: &'a DrumSlotParams)
    ensures
        *r == spec_slot_params(index as int, *params),
{
    match index {
        0 => &params.kick,
        1 => &params.snare,
        2 => &params.clap,
        3 => &params.hat_closed,
        4 => &params.hat_open,
        5 => &params.tom,
        6 => &params.perc1,
        7 => &params.perc2,
        _ => &params.kick,
    }
}

/// A note-on event scheduled inside a processing block.
pub struct NoteOn {
    /// The frame inside the block at which the note fires.
    pub frame: usize,
    /// The note number, mapped to a slot by the fixed drum map.
    pub note: u8,
    /// The velocity in [0, 1]; values outside are clamped at trigger time.
    pub velocity: i64,
}

/// The whole drum machine: parameters, eight voices and the master bus.
pub struct Drumini {
    /// The current parameter snapshot.
    pub params: DrumParams,
    /// Sample rate in hertz, in [1, 1000000].
    pub sample_rate: u32,
    /// The eight voices, one per slot, in slot order.
    pub slots: Vec<DrumSlot>,
    /// The master bus compressor.
    pub comp: SimpleComp,
    /// The master bus reverb.
    pub reverb: SimpleReverb,
}

impl Drumini {
    /// The machine invariant: well-formed parameters and processors, and
    /// one well-formed voice per slot carrying that slot's instrument.
    pub open spec fn wf(self) -> bool {
        &&& self.params.wf()
        &&& 1 <= self.sample_rate <= 1_000_000
        &&& self.slots@.len() == N_SLOTS
        &&& forall|i: int|
            0 <= i < N_SLOTS ==> (#[trigger] self.slots@[i]).wf()
        &&& forall|i: int|
            0 <= i < N_SLOTS ==> (#[trigger] self.slots@[i]).kind == spec_slot_type(i)
        &&& self.comp.wf()
        &&& self.reverb.wf()
    }

    /// A machine whose mutable state sits at silence for the rate sr:
    /// fresh, inactive voices in slot order; a compressor with an empty
    /// follower and unity gain whose time constants fit the rate (by
    /// `SimpleComp::wf`); and zeroed reverb lines sized for the rate (by
    /// `SimpleReverb::wf`) carrying the small-room tap pattern.
    pub open spec fn spec_silent_at(m: Drumini, sr: u32) -> bool {
        &&& m.sample_rate == sr
        &&& m.slots@.len() == N_SLOTS
        &&& (forall|i: int|
            0 <= i < N_SLOTS ==> #[trigger] m.slots@[i]
                == DrumSlot::spec_new(spec_slot_type(i), sr))
        &&& m.comp.sr == sr
        &&& m.comp.env == 0
        &&& m.comp.gain_smooth == SCALE
        &&& m.reverb.sr == sr
        &&& m.reverb.idx == 0
        &&& (forall|i: int|
            0 <= i < m.reverb.buf_l@.len() ==> #[trigger] m.reverb.buf_l@[i] == 0)
        &&& (forall|i: int|
            0 <= i < m.reverb.buf_r@.len() ==> #[trigger] m.reverb.buf_r@[i] == 0)
        &&& m.reverb.d1_l == spec_tap(31, sr as int, m.reverb.buf_l@.len() as int)
        &&& m.reverb.d2_l == spec_tap(53, sr as int, m.reverb.buf_l@.len() as int)
        &&& m.reverb.d1_r == spec_tap(37, sr as int, m.reverb.buf_l@.len() as int)
        &&& m.reverb.d2_r == spec_tap(61, sr as int, m.reverb.buf_l@.len() as int)
    }

    /// A fresh machine at 44100 Hz: silent everywhere, with the default kit
    /// loaded.
    pub fn new() -> (r: Drumini)
        ensures
            r.wf(),
            Self::spec_silent_at(r, 44100),
            r.params == spec_kit_init(),
    {
        let mut slots: Vec<DrumSlot> = Vec::new();
        let mut i: usize = 0;
        while i < N_SLOTS
            invariant
                i <= N_SLOTS,
                slots@.len() == i,
                forall|j: int|
                    0 <= j < i ==> #[trigger] slots@[j]
                        == DrumSlot::spec_new(spec_slot_type(j), 44100),
            decreases N_SLOTS - i,
        {
            slots.push(DrumSlot::new(slot_type_of(i), 44100));
            i = i + 1;
        }
        Drumini {
            params: Default::default(),
            sample_rate: 44100,
            slots,
            comp: SimpleComp::new(44100),
            reverb: SimpleReverb::new(44100),
        }
    }

    /// The current parameter snapshot.
    pub fn params(&self) -> (r: &DrumParams)
        ensures
            *r == self.params,
    {
        &self.params
    }

    /// Replace the parameter snapshot.
    pub fn set_params(&mut self, params: DrumParams)
        requires
            old(self).wf(),
            params.wf(),
        ensures
            (*final(self) == Drumini { params, ..*old(self) }),
            final(self).wf(),
    {
        self.params = params;
    }

    /// Adopt a new sample rate. A rate change is the one stop-the-world
    /// event: the whole machine returns to silence at the new rate — every
    /// voice is replaced by a fresh, inactive one, the compressor's
    /// follower empties and its time constants are recomputed, and the
    /// reverb lines are resized for the rate and zeroed — so the next
    /// render call starts from silence. (Merely re-timing the voices would
    /// leave envelopes and delay lines carrying samples of the old rate.)
    /// The parameter snapshot is kept.
    pub fn initialize(&mut self, sample_rate: u32)
        requires
            old(self).wf(),
        ensures
            final(self).wf(),
            final(self).params == old(self).params,
            final(self).sample_rate == spec_clamp(sample_rate as int, 1, 1_000_000),
            Self::spec_silent_at(
                *final(self), spec_clamp(sample_rate as int, 1, 1_000_000) as u32),
    {
        let sr = if sample_rate < 1 {
            1u32
        } else if sample_rate > 1_000_000 {
            1_000_000u32
        } else {
            sample_rate
        };
        self.sample_rate = sr;
        let mut slots: Vec<DrumSlot> = Vec::new();
        let mut i: usize = 0;
        while i < N_SLOTS
            invariant
                i <= N_SLOTS,
                slots@.len() == i,
                1 <= sr <= 1_000_000,
                forall|j: int|
                    0 <= j < i ==> #[trigger] slots@[j]
                        == DrumSlot::spec_new(spec_slot_type(j), sr),
            decreases N_SLOTS - i,
        {
            slots.push(DrumSlot::new(slot_type_of(i), sr));
            i = i + 1;
        }
        self.slots = slots;
        self.comp = SimpleComp::new(sr);
        self.reverb = SimpleReverb::new(sr);
    }

    /// Return every voice to silence and clear the master bus history: the
    /// compressor's follower empties and its gain returns to unity (its
    /// rate and time constants stay), and the reverb lines are zeroed with
    /// the write index rewound (their length and taps stay).
    pub fn reset(&mut self)
        requires
            old(self).wf(),
        ensures
            final(self).wf(),
            final(self).sample_rate == old(self).sample_rate,
            final(self).params == old(self).params,
            forall|i: int|
                0 <= i < N_SLOTS ==> #[trigger] final(self).slots@[i]
                    == DrumSlot::spec_new(spec_slot_type(i), old(self).sample_rate),
            (final(self).comp == SimpleComp { env: 0, gain_smooth: SCALE, ..old(self).comp }),
            final(self).reverb.sr == old(self).reverb.sr,
            final(self).reverb.idx == 0,
            final(self).reverb.buf_l@.len() == old(self).reverb.buf_l@.len(),
            final(self).reverb.buf_r@.len() == old(self).reverb.buf_r@.len(),
            final(self).reverb.d1_l == old(self).reverb.d1_l,
            final(self).reverb.d2_l == old(self).reverb.d2_l,
            final(self).reverb.d1_r == old(self).reverb.d1_r,
            final(self).reverb.d2_r == old(self).reverb.d2_r,
            forall|i: int|
                0 <= i < final(self).reverb.buf_l@.len()
                    ==> #[trigger] final(self).reverb.buf_l@[i] == 0,
            forall|i: int|
                0 <= i < final(self).reverb.buf_r@.len()
                    ==> #[trigger] final(self).reverb.buf_r@[i] == 0,
    {
        let sr = self.sample_rate;
        let mut slots: Vec<DrumSlot> = Vec::new();
        let mut i: usize = 0;
        while i < N_SLOTS
            invariant
                i <= N_SLOTS,
                slots@.len() == i,
                1 <= sr <= 1_000_000,
                forall|j: int|
                    0 <= j < i ==> #[trigger] slots@[j]
                        == DrumSlot::spec_new(spec_slot_type(j), sr),
            decreases N_SLOTS - i,
        {
            slots.push(DrumSlot::new(slot_type_of(i), sr));
            i = i + 1;
        }
        self.slots = slots;
        self.comp.reset();
        self.reverb.reset();
    }

    /// Trigger the voice of one slot. An out-of-range index is ignored
    /// rather than failing: a dropped trigger beats a glitch.
    pub fn dispatch(&mut self, slot_index: usize, velocity: i64)
        requires
            old(self).wf(),
        ensures
            final(self).wf(),
            final(self).params == old(self).params,
            final(self).sample_rate == old(self).sample_rate,
            final(self).comp == old(self).comp,
            final(self).reverb == old(self).reverb,
            slot_index < N_SLOTS ==> final(self).slots@ == old(self).slots@.update(
                slot_index as int,
                DrumSlot::spec_trigger(
                    old(self).slots@[slot_index as int],
                    velocity as int,
                    spec_slot_params(slot_index as int, old(self).params),
                    old(self).params.master,
                ),
            ),
            slot_index >= N_SLOTS ==> *final(self) == *old(self),
    {
        if slot_index < N_SLOTS {
            let p = match_slot_params(slot_index, &self.params);
            self.slots[slot_index].trigger(velocity, p, &self.params.master);
        }
    }

    /// The voice states and stereo sums after rendering and mixing the
    /// first i slots: each voice renders one sample, which is scaled by the
    /// slot's level, panned equal-power, and added to the running sums.
    #[verifier::opaque]
    pub open spec fn spec_mix(slots: Seq<DrumSlot>, params: DrumParams, i: nat) -> (
        Seq<DrumSlot>,
        int,
        int,
    )
        decreases i,
    {
        if i == 0 {
            (slots, 0, 0)
        } else {
            let prev = Self::spec_mix(slots, params, (i - 1) as nat);
            let j = (i - 1) as int;
            let sp = spec_slot_params(j, params);
            let step = DrumSlot::spec_process(prev.0[j], sp);
            let level = spec_clamp(sp.level as int, 0, 2 * (SCALE as int));
            let gains = spec_pan_gains(spec_clamp(sp.pan as int, -(SCALE as int), SCALE as int));
            let yl = spec_fx_mul(step.1, level);
            (
                prev.0.update(j, step.0),
                prev.1 + spec_fx_mul(yl, gains.0),
                prev.2 + spec_fx_mul(yl, gains.1),
            )
        }
    }

    /// Render one sample of every voice, pan and sum them into a stereo
    /// pair. The mix of eight level-scaled, panned voices stays within
    /// sixteen fixed-point units per channel.
    fn mix_voices(&mut self) -> (out: (i64, i64))
        requires
            old(self).wf(),
        ensures
            final(self).wf(),
            final(self).params == old(self).params,
            final(self).sample_rate == old(self).sample_rate,
            final(self).comp == old(self).comp,
            final(self).reverb == old(self).reverb,
            ({
                let m = Self::spec_mix(old(self).slots@, old(self).params, N_SLOTS as nat);
                &&& final(self).slots@ == m.0
                &&& out.0 == m.1
                &&& out.1 == m.2
            }),
            -16 * SCALE <= out.0 <= 16 * SCALE,
            -16 * SCALE <= out.1 <= 16 * SCALE,
    {
        proof {
            reveal(Drumini::spec_mix);
        }
        let mut l: i64 = 0;
        let mut r: i64 = 0;
        let mut i: usize = 0;
        while i < N_SLOTS
            invariant
                old(self).wf(),
                self.slots@.len() == N_SLOTS,
                i <= N_SLOTS,
                self.params == old(self).params,
                self.sample_rate == old(self).sample_rate,
                self.comp == old(self).comp,
                self.reverb == old(self).reverb,
                forall|j: int|
                    0 <= j < N_SLOTS ==> (#[trigger] self.slots@[j]).wf(),
                forall|j: int|
                    0 <= j < N_SLOTS ==> (#[trigger] self.slots@[j]).kind == spec_slot_type(j),
                -0x2_0000_0000 * (i as int) <= l <= 0x2_0000_0000 * (i as int),
                -0x2_0000_0000 * (i as int) <= r <= 0x2_0000_0000 * (i as int),
                ({
                    let m = Self::spec_mix(old(self).slots@, old(self).params, i as nat);
                    &&& self.slots@ == m.0
                    &&& l == m.1
                    &&& r == m.2
                }),
            decreases N_SLOTS - i,
        {
            proof {
                reveal(Drumini::spec_mix);
            }
            let sp = match_slot_params(i, &self.params);
            let level = fx_clamp(sp.level, 0, 2 * SCALE);
            let pan = sp.pan;
            let master = &self.params.master;
            let y = self.slots[i].process(sp, master);
            let gains = pan_to_gains(pan);
            let yl = fx_mul(y, level);
            proof {
                lemma_fx_mul_bound(y as int, level as int, yl as int,
                    SCALE as int, 2 * (SCALE as int));
            }
            let cl = fx_mul(yl, gains.0);
            let cr = fx_mul(yl, gains.1);
            proof {
                assert(-0x2_0000_0000 <= cl <= 0x2_0000_0000);
                assert(-0x2_0000_0000 <= cr <= 0x2_0000_0000);
            }
            l = l + cl;
            r = r + cr;
            i = i + 1;
        }
        (l, r)
    }

    /// Run the summed stereo pair through the master chain: saturation
    /// (when drive is audible), the bus compressor, then the reverb. With
    /// drive, compression and reverb all at or below the epsilon the chain
    /// is an exact bypass: the input comes back unchanged and no state
    /// moves.
    pub fn master_chain(&mut self, l_in: i64, r_in: i64) -> (out: (i64, i64))
        requires
            old(self).wf(),
            -16 * SCALE <= l_in <= 16 * SCALE,
            -16 * SCALE <= r_in <= 16 * SCALE,
        ensures
            final(self).wf(),
            final(self).params == old(self).params,
            final(self).sample_rate == old(self).sample_rate,
            final(self).slots == old(self).slots,
            final(self).reverb.sr == old(self).reverb.sr,
            final(self).reverb.d1_l == old(self).reverb.d1_l,
            final(self).reverb.d2_l == old(self).reverb.d2_l,
            final(self).reverb.d1_r == old(self).reverb.d1_r,
            final(self).reverb.d2_r == old(self).reverb.d2_r,
            -48 * SCALE <= out.0 <= 48 * SCALE,
            -48 * SCALE <= out.1 <= 48 * SCALE,
            ({
                let m = old(self).params.master;
                m.drive <= AMT_EPS && m.comp <= AMT_EPS && m.reverb <= AMT_EPS
                    ==> out.0 == l_in && out.1 == r_in && *final(self) == *old(self)
            }),
            ({
                let m = old(self).params.master;
                let drive = spec_clamp(m.drive as int, 0, SCALE as int);
                let l1 = if drive > AMT_EPS {
                    spec_fx_mul(
                        spec_fast_tanh(spec_fx_mul(l_in as int, (SCALE as int) + 4 * drive)),
                        spec_fx_div(SCALE as int, (SCALE as int) + 2 * drive))
                } else {
                    l_in as int
                };
                let r1 = if drive > AMT_EPS {
                    spec_fx_mul(
                        spec_fast_tanh(spec_fx_mul(r_in as int, (SCALE as int) + 4 * drive)),
                        spec_fx_div(SCALE as int, (SCALE as int) + 2 * drive))
                } else {
                    r_in as int
                };
                let cstep = SimpleComp::spec_process(
                    old(self).comp, l1, r1, spec_clamp(m.comp as int, 0, SCALE as int));
                let rstep = SimpleReverb::spec_process(
                    old(self).reverb, cstep.1, cstep.2,
                    spec_clamp(m.reverb as int, 0, SCALE as int));
                &&& final(self).comp == cstep.0
                &&& final(self).reverb.buf_l@ == rstep.0
                &&& final(self).reverb.buf_r@ == rstep.1
                &&& final(self).reverb.idx == rstep.2
                &&& out.0 == rstep.3
                &&& out.1 == rstep.4
            }),
    {
        let drive = fx_clamp(self.params.master.drive, 0, SCALE);
        let mut l = l_in;
        let mut r = r_in;
        if drive > AMT_EPS {
            let gain = SCALE + 4 * drive;
            proof {
                vstd::arithmetic::div_mod::lemma_div_is_ordered_by_denominator(
                    (SCALE as int) * (SCALE as int), SCALE as int,
                    (SCALE as int) + 2 * drive);
                vstd::arithmetic::div_mod::lemma_div_by_multiple(SCALE as int, SCALE as int);
            }
            let makeup = fx_div(SCALE, SCALE + 2 * drive);
            let ld = fx_mul(l, gain);
            let rd = fx_mul(r, gain);
            proof {
                lemma_fx_mul_bound(l_in as int, gain as int, ld as int,
                    16 * (SCALE as int), 5 * (SCALE as int));
                lemma_fx_mul_bound(r_in as int, gain as int, rd as int,
                    16 * (SCALE as int), 5 * (SCALE as int));
            }
            l = fx_mul(fast_tanh(ld), makeup);
            r = fx_mul(fast_tanh(rd), makeup);
        }
        let comp_amt = fx_clamp(self.params.master.comp, 0, SCALE);
        let (cl, cr) = self.comp.process(l, r, comp_amt);
        l = cl;
        r = cr;
        let rev_amt = fx_clamp(self.params.master.reverb, 0, SCALE);
        self.reverb.process(l, r, rev_amt)
    }

    /// The mutable heart of the machine, as ghost values: the voice states,
    /// the compressor, and the reverb's lines and write index. Everything
    /// else (parameters, rates, tap offsets) is fixed during a block.
    pub open spec fn spec_model(m: Drumini) -> (Seq<DrumSlot>, SimpleComp, Seq<i64>, Seq<i64>,
        int) {
        (m.slots@, m.comp, m.reverb.buf_l@, m.reverb.buf_r@, m.reverb.idx as int)
    }

    /// Fire every event due at the given frame, in arrival order, starting
    /// at event k: each mapped note retriggers its slot's voice; unmapped
    /// notes are skipped. Returns the voice states and the next unconsumed
    /// event index.
    #[verifier::opaque]
    pub open spec fn spec_fire(
        slots: Seq<DrumSlot>,
        params: DrumParams,
        events: Seq<NoteOn>,
        k: nat,
        frame: nat,
    ) -> (Seq<DrumSlot>, nat)
        decreases events.len() - k,
    {
        if k >= events.len() || events[k as int].frame != frame {
            (slots, k)
        } else {
            let fired = match spec_note_to_slot(events[k as int].note) {
                Some(slot) => slots.update(
                    slot as int,
                    DrumSlot::spec_trigger(
                        slots[slot as int],
                        events[k as int].velocity as int,
                        spec_slot_params(slot as int, params),
                        params.master,
                    ),
                ),
                None => slots,
            };
            Self::spec_fire(fired, params, events, k + 1, frame)
        }
    }

    /// One frame of the machine after its events have fired: mix the eight
    /// voices, then run the master chain over the model state.
    #[verifier::opaque]
    pub open spec fn spec_frame_step(
        slots: Seq<DrumSlot>,
        comp: SimpleComp,
        rev_l: Seq<i64>,
        rev_r: Seq<i64>,
        rev_idx: int,
        m0: Drumini,
    ) -> (Seq<DrumSlot>, SimpleComp, Seq<i64>, Seq<i64>, int, int, int) {
        let mixed = Self::spec_mix(slots, m0.params, N_SLOTS as nat);
        let master = m0.params.master;
        let drive = spec_clamp(master.drive as int, 0, SCALE as int);
        let l1 = if drive > AMT_EPS {
            spec_fx_mul(
                spec_fast_tanh(spec_fx_mul(mixed.1, (SCALE as int) + 4 * drive)),
                spec_fx_div(SCALE as int, (SCALE as int) + 2 * drive))
        } else {
            mixed.1
        };
        let r1 = if drive > AMT_EPS {
            spec_fx_mul(
                spec_fast_tanh(spec_fx_mul(mixed.2, (SCALE as int) + 4 * drive)),
                spec_fx_div(SCALE as int, (SCALE as int) + 2 * drive))
        } else {
            mixed.2
        };
        let cstep = SimpleComp::spec_process(
            comp, l1, r1, spec_clamp(master.comp as int, 0, SCALE as int));
        let rstep = SimpleReverb::spec_step(
            rev_l, rev_r, rev_idx,
            m0.reverb.d1_l as int, m0.reverb.d2_l as int,
            m0.reverb.d1_r as int, m0.reverb.d2_r as int,
            cstep.1, cstep.2, spec_clamp(master.reverb as int, 0, SCALE as int));
        (mixed.0, cstep.0, rstep.0, rstep.1, rstep.2, rstep.3, rstep.4)
    }

    /// A whole block from the given model state: per frame, fire the due
    /// events, render and master one frame, and append the stereo sample.
    /// Returns the final model state, the next unconsumed event index and
    /// the two output channels.
    #[verifier::opaque]
    pub open spec fn spec_block(
        slots: Seq<DrumSlot>,
        comp: SimpleComp,
        rev_l: Seq<i64>,
        rev_r: Seq<i64>,
        rev_idx: int,
        m0: Drumini,
        events: Seq<NoteOn>,
        k: nat,
        frame: nat,
        frames: nat,
    ) -> (Seq<DrumSlot>, SimpleComp, Seq<i64>, Seq<i64>, int, nat, Seq<i64>, Seq<i64>)
        decreases frames - frame,
    {
        if frame >= frames {
            (slots, comp, rev_l, rev_r, rev_idx, k, Seq::<i64>::empty(), Seq::<i64>::empty())
        } else {
            let fired = Self::spec_fire(slots, m0.params, events, k, frame);
            let st = Self::spec_frame_step(fired.0, comp, rev_l, rev_r, rev_idx, m0);
            let rest = Self::spec_block(
                st.0, st.1, st.2, st.3, st.4, m0, events, fired.1, frame + 1, frames);
            (
                rest.0,
                rest.1,
                rest.2,
                rest.3,
                rest.4,
                rest.5,
                seq![st.5 as i64] + rest.6,
                seq![st.6 as i64] + rest.7,
            )
        }
    }

    /// Render one block of audio. Events fire on their exact frame, in
    /// arrival order, before that frame is rendered; notes outside the drum
    /// map are ignored. Returns the left and right channels, one sample per
    /// frame.
    #[verifier::rlimit(100)]
    #[verifier::spinoff_prover]
    pub fn process_block(&mut self, events: &Vec<NoteOn>, frames: usize) -> (out: (
        Vec<i64>,
        Vec<i64>,
    ))
        requires
            old(self).wf(),
        ensures
            final(self).wf(),
            final(self).params == old(self).params,
            final(self).sample_rate == old(self).sample_rate,
            out.0@.len() == frames,
            out.1@.len() == frames,
            forall|i: int|
                0 <= i < frames ==> -48 * SCALE <= #[trigger] out.0@[i] <= 48 * SCALE,
            forall|i: int|
                0 <= i < frames ==> -48 * SCALE <= #[trigger] out.1@[i] <= 48 * SCALE,
            ({
                let b = Self::spec_block(
                    old(self).slots@, old(self).comp, old(self).reverb.buf_l@,
                    old(self).reverb.buf_r@, old(self).reverb.idx as int, *old(self),
                    events@, 0, 0, frames as nat);
                &&& final(self).slots@ == b.0
                &&& final(self).comp == b.1
                &&& final(self).reverb.buf_l@ == b.2
                &&& final(self).reverb.buf_r@ == b.3
                &&& final(self).reverb.idx == b.4
                &&& out.0@ == b.6
                &&& out.1@ == b.7
            }),
    {
        proof {
            reveal(Drumini::spec_block);
            reveal(Drumini::spec_fire);
            reveal(Drumini::spec_frame_step);
        }
        let mut out_l: Vec<i64> = Vec::new();
        let mut out_r: Vec<i64> = Vec::new();
        let mut next_event: usize = 0;
        let mut frame: usize = 0;
        while frame < frames
            invariant
                self.wf(),
                self.params == old(self).params,
                self.sample_rate == old(self).sample_rate,
                self.reverb.d1_l == old(self).reverb.d1_l,
                self.reverb.d2_l == old(self).reverb.d2_l,
                self.reverb.d1_r == old(self).reverb.d1_r,
                self.reverb.d2_r == old(self).reverb.d2_r,
                frame <= frames,
                next_event <= events@.len(),
                out_l@.len() == frame,
                out_r@.len() == frame,
                forall|i: int|
                    0 <= i < frame ==> -48 * SCALE <= #[trigger] out_l@[i] <= 48 * SCALE,
                forall|i: int|
                    0 <= i < frame ==> -48 * SCALE <= #[trigger] out_r@[i] <= 48 * SCALE,
                ({
                    let total = Self::spec_block(
                        old(self).slots@, old(self).comp, old(self).reverb.buf_l@,
                        old(self).reverb.buf_r@, old(self).reverb.idx as int, *old(self),
                        events@, 0, 0, frames as nat);
                    let remain = Self::spec_block(
                        self.slots@, self.comp, self.reverb.buf_l@, self.reverb.buf_r@,
                        self.reverb.idx as int, *old(self), events@, next_event as nat,
                        frame as nat, frames as nat);
                    &&& total.0 == remain.0
                    &&& total.1 == remain.1
                    &&& total.2 == remain.2
                    &&& total.3 == remain.3
                    &&& total.4 == remain.4
                    &&& total.5 == remain.5
                    &&& total.6 == out_l@ + remain.6
                    &&& total.7 == out_r@ + remain.7
                }),
            decreases frames - frame,
        {
            proof {
                reveal(Drumini::spec_block);
                reveal(Drumini::spec_fire);
                reveal(Drumini::spec_frame_step);
            }
            let ghost slots_at_entry = self.slots@;
            let ghost k_at_entry = next_event as nat;
            let ghost comp_at_entry = self.comp;
            let ghost reverb_at_entry = self.reverb;
            while next_event < events.len() && events[next_event].frame == frame
                invariant
                    self.wf(),
                    self.params == old(self).params,
                    self.sample_rate == old(self).sample_rate,
                    self.comp == comp_at_entry,
                    self.reverb == reverb_at_entry,
                    next_event <= events@.len(),
                    Self::spec_fire(slots_at_entry, self.params, events@, k_at_entry,
                        frame as nat)
                        == Self::spec_fire(self.slots@, self.params, events@,
                            next_event as nat, frame as nat),
                decreases events@.len() - next_event,
            {
                proof {
                    reveal(Drumini::spec_fire);
                }
                let ev = &events[next_event];
                match note_to_slot(ev.note) {
                    Some(slot) => {
                        self.dispatch(slot, ev.velocity);
                    },
                    None => {},
                }
                next_event = next_event + 1;
            }
            let (ml, mr) = self.mix_voices();
            let (ol, or) = self.master_chain(ml, mr);
            out_l.push(ol);
            out_r.push(or);
            frame = frame + 1;
        }
        (out_l, out_r)
    }
}

impl Default for Drumini {
    /// The same machine `new` builds: silent at 44100 Hz with the default
    /// kit loaded.
    fn default() -> (r: Drumini)
        ensures
            r.wf(),
            Drumini::spec_silent_at(r, 44100),
            r.params == spec_kit_init(),
    {
        Drumini::new()
    }
}

} // verus!
