//! Parameter records for the eight drum slots and the master section.
//!
//! Every field is a fixed-point value already clamped into its documented
//! range; the constructors clamp defensively, so a well-formed record can be
//! built from arbitrary inputs.

use vstd::prelude::*;
use crate::fixed::{SCALE, fx_clamp, spec_clamp};

verus! {

/// Parameters for a single drum slot.
pub struct DrumSlotParams {
    /// Output level for this slot, in [0, 2].
    pub level: i64,
    /// Stereo pan in [-1, 1]: -1 left, 0 center, 1 right.
    pub pan: i64,
    /// Brightness / filter color macro, in [0, 1].
    pub tone: i64,
    /// Amplitude decay in fixed-point milliseconds, in [10, 2000].
    pub decay: i64,
    /// Transient attack / snap macro, in [0, 1].
    pub snap: i64,
    /// Pitch offset in semitones, in [-24, 24].
    pub pitch: i64,
    /// Humanization amount, in [0, 1].
    pub humanize: i64,
}

/// Global master controls.
pub struct MasterParams {
    /// Drive / saturation amount, in [0, 1].
    pub drive: i64,
    /// Bus compression amount, in [0, 1].
    pub comp: i64,
    /// Send reverb amount, in [0, 1].
    pub reverb: i64,
    /// Global kit pitch in semitones, in [-12, 12].
    pub kit_pitch: i64,
    /// Velocity curve / sensitivity, in [0, 1].
    pub velocity_curve: i64,
}

/// One slot-parameter record per slot, plus the master section.
pub struct DrumParams {
    pub kick: DrumSlotParams,
    pub snare: DrumSlotParams,
    pub clap: DrumSlotParams,
    pub hat_closed: DrumSlotParams,
    pub hat_open: DrumSlotParams,
    pub tom: DrumSlotParams,
    pub perc1: DrumSlotParams,
    pub perc2: DrumSlotParams,
    pub master: MasterParams,
}

/// A signed count of thousandths as a fixed-point value, truncated toward
/// zero; the way literal parameter values are written down.
pub open spec fn spec_from_milli(m: int) -> int {
    if m >= 0 {
        m * (SCALE as int) / 1000
    } else {
        -((-m) * (SCALE as int) / 1000)
    }
}

/// Converts thousandths to fixed point: 1000 stands for one.
pub fn fx_from_milli(m: i64) -> (r: i64)
    requires
        -2_000_000 <= m <= 2_000_000,
    ensures
        r == spec_from_milli(m as int),
        -2000 * SCALE <= r <= 2000 * SCALE,
        m >= 0 ==> r >= 0,
        m <= 0 ==> r <= 0,
{
    if m >= 0 {
        proof {
            assert((m as int) * (SCALE as int) <= 2_000_000 * (SCALE as int))
                by (nonlinear_arith)
                requires
                    0 <= m <= 2_000_000,
            ;
        }
        let p = (m as u64) * (SCALE as u64);
        let q = p / 1000;
        proof {
            vstd::arithmetic::div_mod::lemma_div_is_ordered(
                p as int, 2_000_000 * (SCALE as int), 1000);
            assert((2_000_000 * (SCALE as int)) / 1000 == 2000 * (SCALE as int))
                by (nonlinear_arith)
                requires
                    SCALE == 0x1_0000_0000,
            ;
        }
        q as i64
    } else {
        proof {
            assert(((-m) as int) * (SCALE as int) <= 2_000_000 * (SCALE as int))
                by (nonlinear_arith)
                requires
                    0 <= -m <= 2_000_000,
            ;
        }
        let p = ((-m) as u64) * (SCALE as u64);
        let q = p / 1000;
        proof {
            vstd::arithmetic::div_mod::lemma_div_is_ordered(
                p as int, 2_000_000 * (SCALE as int), 1000);
            assert((2_000_000 * (SCALE as int)) / 1000 == 2000 * (SCALE as int))
                by (nonlinear_arith)
                requires
                    SCALE == 0x1_0000_0000,
            ;
        }
        -(q as i64)
    }
}

impl DrumSlotParams {
    /// All fields inside their documented ranges.
    pub open spec fn wf(self) -> bool {
        &&& 0 <= self.level <= 2 * SCALE
        &&& -SCALE <= self.pan <= SCALE
        &&& 0 <= self.tone <= SCALE
        &&& 10 * SCALE <= self.decay <= 2000 * SCALE
        &&& 0 <= self.snap <= SCALE
        &&& -24 * SCALE <= self.pitch <= 24 * SCALE
        &&& 0 <= self.humanize <= SCALE
    }

    /// The record that `from_values` builds: every field clamped.
    pub open spec fn spec_from_values(
        level: int,
        pan: int,
        tone: int,
        decay_ms: int,
        snap: int,
        pitch_st: int,
        humanize: int,
    ) -> DrumSlotParams {
        DrumSlotParams {
            level: spec_clamp(level, 0, 2 * (SCALE as int)) as i64,
            pan: spec_clamp(pan, -(SCALE as int), SCALE as int) as i64,
            tone: spec_clamp(tone, 0, SCALE as int) as i64,
            decay: spec_clamp(decay_ms, 10 * (SCALE as int), 2000 * (SCALE as int)) as i64,
            snap: spec_clamp(snap, 0, SCALE as int) as i64,
            pitch: spec_clamp(pitch_st, -24 * (SCALE as int), 24 * (SCALE as int)) as i64,
            humanize: spec_clamp(humanize, 0, SCALE as int) as i64,
        }
    }

    /// The record `default_kick` builds.
    pub open spec fn spec_default_kick() -> DrumSlotParams {
        Self::spec_from_values(spec_from_milli(900), 0, spec_from_milli(400), 300 * (SCALE as int),
            spec_from_milli(600), 0, spec_from_milli(200))
    }

    /// The record `default_snare` builds.
    pub open spec fn spec_default_snare() -> DrumSlotParams {
        Self::spec_from_values(spec_from_milli(900), 0, spec_from_milli(600), 200 * (SCALE as int),
            spec_from_milli(700), 0, spec_from_milli(200))
    }

    /// The record `default_clap` builds.
    pub open spec fn spec_default_clap() -> DrumSlotParams {
        Self::spec_from_values(spec_from_milli(800), 0, spec_from_milli(700), 180 * (SCALE as int),
            spec_from_milli(800), 0, spec_from_milli(200))
    }

    /// The record `default_hat_closed` builds.
    pub open spec fn spec_default_hat_closed() -> DrumSlotParams {
        Self::spec_from_values(spec_from_milli(700), spec_from_milli(-100), spec_from_milli(800),
            80 * (SCALE as int), spec_from_milli(500), 0, spec_from_milli(100))
    }

    /// The record `default_hat_open` builds.
    pub open spec fn spec_default_hat_open() -> DrumSlotParams {
        Self::spec_from_values(spec_from_milli(700), spec_from_milli(-100), spec_from_milli(800),
            450 * (SCALE as int), spec_from_milli(400), 0, spec_from_milli(100))
    }

    /// The record `default_tom` builds.
    pub open spec fn spec_default_tom() -> DrumSlotParams {
        Self::spec_from_values(spec_from_milli(800), spec_from_milli(100), spec_from_milli(500),
            260 * (SCALE as int), spec_from_milli(400), 0, spec_from_milli(100))
    }

    /// The record `default_perc1` builds.
    pub open spec fn spec_default_perc1() -> DrumSlotParams {
        Self::spec_from_values(spec_from_milli(700), spec_from_milli(200), spec_from_milli(700),
            220 * (SCALE as int), spec_from_milli(500), 0, spec_from_milli(200))
    }

    /// The record `default_perc2` builds.
    pub open spec fn spec_default_perc2() -> DrumSlotParams {
        Self::spec_from_values(spec_from_milli(700), spec_from_milli(300), spec_from_milli(500),
            220 * (SCALE as int), spec_from_milli(500), 0, spec_from_milli(200))
    }

    /// Construct a slot record with explicit values for all macros, each
    /// clamped into its range.
    pub fn from_values(
        level: i64,
        pan: i64,
        tone: i64,
        decay_ms: i64,
        snap: i64,
        pitch_st: i64,
        humanize: i64,
    ) -> (r: DrumSlotParams)
        ensures
            r == Self::spec_from_values(
                level as int, pan as int, tone as int, decay_ms as int,
                snap as int, pitch_st as int, humanize as int),
            r.wf(),
    {
        DrumSlotParams {
            level: fx_clamp(level, 0, 2 * SCALE),
            pan: fx_clamp(pan, -SCALE, SCALE),
            tone: fx_clamp(tone, 0, SCALE),
            decay: fx_clamp(decay_ms, 10 * SCALE, 2000 * SCALE),
            snap: fx_clamp(snap, 0, SCALE),
            pitch: fx_clamp(pitch_st, -24 * SCALE, 24 * SCALE),
            humanize: fx_clamp(humanize, 0, SCALE),
        }
    }

    /// Punchy, slightly darker, medium-long decay.
    pub fn default_kick() -> (r: DrumSlotParams)
        ensures
            r == Self::spec_default_kick(),
            r.wf(),
    {
        Self::from_values(
            fx_from_milli(900), 0, fx_from_milli(400), 300 * SCALE,
            fx_from_milli(600), 0, fx_from_milli(200))
    }

    /// Bright, snappy, medium decay.
    pub fn default_snare() -> (r: DrumSlotParams)
        ensures
            r == Self::spec_default_snare(),
            r.wf(),
    {
        Self::from_values(
            fx_from_milli(900), 0, fx_from_milli(600), 200 * SCALE,
            fx_from_milli(700), 0, fx_from_milli(200))
    }

    /// Bright, snappy, shorter decay.
    pub fn default_clap() -> (r: DrumSlotParams)
        ensures
            r == Self::spec_default_clap(),
            r.wf(),
    {
        Self::from_values(
            fx_from_milli(800), 0, fx_from_milli(700), 180 * SCALE,
            fx_from_milli(800), 0, fx_from_milli(200))
    }

    /// Short and bright.
    pub fn default_hat_closed() -> (r: DrumSlotParams)
        ensures
            r == Self::spec_default_hat_closed(),
            r.wf(),
    {
        Self::from_values(
            fx_from_milli(700), fx_from_milli(-100), fx_from_milli(800),
            80 * SCALE, fx_from_milli(500), 0, fx_from_milli(100))
    }

    /// Longer and bright.
    pub fn default_hat_open() -> (r: DrumSlotParams)
        ensures
            r == Self::spec_default_hat_open(),
            r.wf(),
    {
        Self::from_values(
            fx_from_milli(700), fx_from_milli(-100), fx_from_milli(800),
            450 * SCALE, fx_from_milli(400), 0, fx_from_milli(100))
    }

    /// Medium decay, mid tone.
    pub fn default_tom() -> (r: DrumSlotParams)
        ensures
            r == Self::spec_default_tom(),
            r.wf(),
    {
        Self::from_values(
            fx_from_milli(800), fx_from_milli(100), fx_from_milli(500),
            260 * SCALE, fx_from_milli(400), 0, fx_from_milli(100))
    }

    /// Slightly bright, medium decay.
    pub fn default_perc1() -> (r: DrumSlotParams)
        ensures
            r == Self::spec_default_perc1(),
            r.wf(),
    {
        Self::from_values(
            fx_from_milli(700), fx_from_milli(200), fx_from_milli(700),
            220 * SCALE, fx_from_milli(500), 0, fx_from_milli(200))
    }

    /// More mid, similar decay.
    pub fn default_perc2() -> (r: DrumSlotParams)
        ensures
            r == Self::spec_default_perc2(),
            r.wf(),
    {
        Self::from_values(
            fx_from_milli(700), fx_from_milli(300), fx_from_milli(500),
            220 * SCALE, fx_from_milli(500), 0, fx_from_milli(200))
    }
}

impl MasterParams {
    /// All fields inside their documented ranges.
    pub open spec fn wf(self) -> bool {
        &&& 0 <= self.drive <= SCALE
        &&& 0 <= self.comp <= SCALE
        &&& 0 <= self.reverb <= SCALE
        &&& -12 * SCALE <= self.kit_pitch <= 12 * SCALE
        &&& 0 <= self.velocity_curve <= SCALE
    }

    /// The record that `from_values` builds: every field clamped.
    pub open spec fn spec_from_values(
        drive: int,
        comp: int,
        reverb: int,
        kit_pitch: int,
        velocity_curve: int,
    ) -> MasterParams {
        MasterParams {
            drive: spec_clamp(drive, 0, SCALE as int) as i64,
            comp: spec_clamp(comp, 0, SCALE as int) as i64,
            reverb: spec_clamp(reverb, 0, SCALE as int) as i64,
            kit_pitch: spec_clamp(kit_pitch, -12 * (SCALE as int), 12 * (SCALE as int)) as i64,
            velocity_curve: spec_clamp(velocity_curve, 0, SCALE as int) as i64,
        }
    }

    /// The record `default` builds.
    pub open spec fn spec_default_master() -> MasterParams {
        Self::spec_from_values(
            spec_from_milli(100), spec_from_milli(300), spec_from_milli(200),
            0, spec_from_milli(500))
    }

    /// Construct a master record with explicit values, each clamped into
    /// its range.
    pub fn from_values(
        drive: i64,
        comp: i64,
        reverb: i64,
        kit_pitch: i64,
        velocity_curve: i64,
    ) -> (r: MasterParams)
        ensures
            r == Self::spec_from_values(
                drive as int, comp as int, reverb as int,
                kit_pitch as int, velocity_curve as int),
            r.wf(),
    {
        MasterParams {
            drive: fx_clamp(drive, 0, SCALE),
            comp: fx_clamp(comp, 0, SCALE),
            reverb: fx_clamp(reverb, 0, SCALE),
            kit_pitch: fx_clamp(kit_pitch, -12 * SCALE, 12 * SCALE),
            velocity_curve: fx_clamp(velocity_curve, 0, SCALE),
        }
    }
}

impl Default for MasterParams {
    /// Light drive, moderate compression, a little reverb, neutral pitch.
    fn default() -> (r: MasterParams)
        ensures
            r == Self::spec_default_master(),
            r.wf(),
    {
        Self::from_values(
            fx_from_milli(100), fx_from_milli(300), fx_from_milli(200),
            0, fx_from_milli(500))
    }
}

impl DrumParams {
    /// All slot records and the master record are well formed.
    pub open spec fn wf(self) -> bool {
        &&& self.kick.wf()
        &&& self.snare.wf()
        &&& self.clap.wf()
        &&& self.hat_closed.wf()
        &&& self.hat_open.wf()
        &&& self.tom.wf()
        &&& self.perc1.wf()
        &&& self.perc2.wf()
        &&& self.master.wf()
    }
}

impl Default for DrumParams {
    /// The factory defaults of every slot plus the default master section.
    fn default() -> (r: DrumParams)
        ensures
            r.kick == DrumSlotParams::spec_default_kick(),
            r.snare == DrumSlotParams::spec_default_snare(),
            r.clap == DrumSlotParams::spec_default_clap(),
            r.hat_closed == DrumSlotParams::spec_default_hat_closed(),
            r.hat_open == DrumSlotParams::spec_default_hat_open(),
            r.tom == DrumSlotParams::spec_default_tom(),
            r.perc1 == DrumSlotParams::spec_default_perc1(),
            r.perc2 == DrumSlotParams::spec_default_perc2(),
            r.master == MasterParams::spec_default_master(),
            r.wf(),
    {
        DrumParams {
            kick: DrumSlotParams::default_kick(),
            snare: DrumSlotParams::default_snare(),
            clap: DrumSlotParams::default_clap(),
            hat_closed: DrumSlotParams::default_hat_closed(),
            hat_open: DrumSlotParams::default_hat_open(),
            tom: DrumSlotParams::default_tom(),
            perc1: DrumSlotParams::default_perc1(),
            perc2: DrumSlotParams::default_perc2(),
            master: MasterParams::default(),
        }
    }
}

} // verus!
