//! The factory kits: named, complete parameter sets for the whole machine.

use vstd::prelude::*;
use crate::fixed::SCALE;
use crate::params::{DrumParams, DrumSlotParams, MasterParams, fx_from_milli, spec_from_milli};

verus! {

/// A named factory parameter set.
pub struct Kit {
    /// The kit's display name.
    pub name: &'static str,
    /// The full parameter set the kit loads.
    pub params: DrumParams,
}

/// The neutral starting kit: every slot at its default.
pub open spec fn spec_kit_init() -> DrumParams {
    DrumParams {
        kick: DrumSlotParams::spec_default_kick(),
        snare: DrumSlotParams::spec_default_snare(),
        clap: DrumSlotParams::spec_default_clap(),
        hat_closed: DrumSlotParams::spec_default_hat_closed(),
        hat_open: DrumSlotParams::spec_default_hat_open(),
        tom: DrumSlotParams::spec_default_tom(),
        perc1: DrumSlotParams::spec_default_perc1(),
        perc2: DrumSlotParams::spec_default_perc2(),
        master: MasterParams::spec_default_master(),
    }
}

/// The neutral starting kit.
pub fn kit_init() -> (r: DrumParams)
    ensures
        r == spec_kit_init(),
        r.wf(),
{
    Default::default()
}

/// Clean 808-style kit: deep kick, bright snare and hats.
pub open spec fn spec_kit_808_clean() -> DrumParams {
    DrumParams {
        kick: DrumSlotParams::spec_from_values(
            spec_from_milli(1000), 0, spec_from_milli(400),
            360 * (SCALE as int), spec_from_milli(550), -2 * (SCALE as int),
            spec_from_milli(100)),
        snare: DrumSlotParams::spec_from_values(
            spec_from_milli(900), 0, spec_from_milli(650),
            220 * (SCALE as int), spec_from_milli(750), 0,
            spec_from_milli(200)),
        clap: DrumSlotParams::spec_from_values(
            spec_from_milli(800), 0, spec_from_milli(750),
            190 * (SCALE as int), spec_from_milli(850), 0,
            spec_from_milli(200)),
        hat_closed: DrumSlotParams::spec_from_values(
            spec_from_milli(650), spec_from_milli(-100), spec_from_milli(850),
            70 * (SCALE as int), spec_from_milli(500), 0,
            spec_from_milli(100)),
        hat_open: DrumSlotParams::spec_from_values(
            spec_from_milli(700), spec_from_milli(-100), spec_from_milli(850),
            320 * (SCALE as int), spec_from_milli(400), 0,
            spec_from_milli(100)),
        tom: DrumSlotParams::spec_from_values(
            spec_from_milli(800), spec_from_milli(50), spec_from_milli(550),
            260 * (SCALE as int), spec_from_milli(400), -2 * (SCALE as int),
            spec_from_milli(100)),
        perc1: DrumSlotParams::spec_from_values(
            spec_from_milli(700), spec_from_milli(200), spec_from_milli(700),
            220 * (SCALE as int), spec_from_milli(500), 0,
            spec_from_milli(200)),
        perc2: DrumSlotParams::spec_from_values(
            spec_from_milli(700), spec_from_milli(300), spec_from_milli(550),
            220 * (SCALE as int), spec_from_milli(500), 0,
            spec_from_milli(200)),
        master: MasterParams::spec_from_values(
            spec_from_milli(150), spec_from_milli(250), spec_from_milli(150), 0,
            spec_from_milli(450)),
    }
}

/// Clean 808-style kit: deep kick, bright snare and hats.
pub fn kit_808_clean() -> (r: DrumParams)
    ensures
        r == spec_kit_808_clean(),
        r.wf(),
{
    DrumParams {
        kick: DrumSlotParams::from_values(
            fx_from_milli(1000), 0, fx_from_milli(400),
            360 * SCALE, fx_from_milli(550), -2 * SCALE,
            fx_from_milli(100)),
        snare: DrumSlotParams::from_values(
            fx_from_milli(900), 0, fx_from_milli(650),
            220 * SCALE, fx_from_milli(750), 0,
            fx_from_milli(200)),
        clap: DrumSlotParams::from_values(
            fx_from_milli(800), 0, fx_from_milli(750),
            190 * SCALE, fx_from_milli(850), 0,
            fx_from_milli(200)),
        hat_closed: DrumSlotParams::from_values(
            fx_from_milli(650), fx_from_milli(-100), fx_from_milli(850),
            70 * SCALE, fx_from_milli(500), 0,
            fx_from_milli(100)),
        hat_open: DrumSlotParams::from_values(
            fx_from_milli(700), fx_from_milli(-100), fx_from_milli(850),
            320 * SCALE, fx_from_milli(400), 0,
            fx_from_milli(100)),
        tom: DrumSlotParams::from_values(
            fx_from_milli(800), fx_from_milli(50), fx_from_milli(550),
            260 * SCALE, fx_from_milli(400), -2 * SCALE,
            fx_from_milli(100)),
        perc1: DrumSlotParams::from_values(
            fx_from_milli(700), fx_from_milli(200), fx_from_milli(700),
            220 * SCALE, fx_from_milli(500), 0,
            fx_from_milli(200)),
        perc2: DrumSlotParams::from_values(
            fx_from_milli(700), fx_from_milli(300), fx_from_milli(550),
            220 * SCALE, fx_from_milli(500), 0,
            fx_from_milli(200)),
        master: MasterParams::from_values(
            fx_from_milli(150), fx_from_milli(250), fx_from_milli(150), 0,
            fx_from_milli(450)),
    }
}

/// Punchy EDM kit: hot levels, hard snap, heavier bus drive.
pub open spec fn spec_kit_edm_punch() -> DrumParams {
    DrumParams {
        kick: DrumSlotParams::spec_from_values(
            spec_from_milli(1100), 0, spec_from_milli(550),
            280 * (SCALE as int), spec_from_milli(850), 0,
            spec_from_milli(150)),
        snare: DrumSlotParams::spec_from_values(
            spec_from_milli(1000), 0, spec_from_milli(750),
            190 * (SCALE as int), spec_from_milli(850), 2 * (SCALE as int),
            spec_from_milli(200)),
        clap: DrumSlotParams::spec_from_values(
            spec_from_milli(900), 0, spec_from_milli(800),
            200 * (SCALE as int), spec_from_milli(900), 0,
            spec_from_milli(150)),
        hat_closed: DrumSlotParams::spec_from_values(
            spec_from_milli(750), spec_from_milli(-200), spec_from_milli(900),
            90 * (SCALE as int), spec_from_milli(600), 0,
            spec_from_milli(100)),
        hat_open: DrumSlotParams::spec_from_values(
            spec_from_milli(800), spec_from_milli(-200), spec_from_milli(900),
            380 * (SCALE as int), spec_from_milli(500), 0,
            spec_from_milli(100)),
        tom: DrumSlotParams::spec_from_values(
            spec_from_milli(850), spec_from_milli(100), spec_from_milli(600),
            260 * (SCALE as int), spec_from_milli(450), 0,
            spec_from_milli(100)),
        perc1: DrumSlotParams::spec_from_values(
            spec_from_milli(800), spec_from_milli(250), spec_from_milli(750),
            240 * (SCALE as int), spec_from_milli(600), 2 * (SCALE as int),
            spec_from_milli(200)),
        perc2: DrumSlotParams::spec_from_values(
            spec_from_milli(800), spec_from_milli(350), spec_from_milli(650),
            240 * (SCALE as int), spec_from_milli(550), -2 * (SCALE as int),
            spec_from_milli(200)),
        master: MasterParams::spec_from_values(
            spec_from_milli(350), spec_from_milli(550), spec_from_milli(200), 0,
            spec_from_milli(550)),
    }
}

/// Punchy EDM kit: hot levels, hard snap, heavier bus drive.
pub fn kit_edm_punch() -> (r: DrumParams)
    ensures
        r == spec_kit_edm_punch(),
        r.wf(),
{
    DrumParams {
        kick: DrumSlotParams::from_values(
            fx_from_milli(1100), 0, fx_from_milli(550),
            280 * SCALE, fx_from_milli(850), 0,
            fx_from_milli(150)),
        snare: DrumSlotParams::from_values(
            fx_from_milli(1000), 0, fx_from_milli(750),
            190 * SCALE, fx_from_milli(850), 2 * SCALE,
            fx_from_milli(200)),
        clap: DrumSlotParams::from_values(
            fx_from_milli(900), 0, fx_from_milli(800),
            200 * SCALE, fx_from_milli(900), 0,
            fx_from_milli(150)),
        hat_closed: DrumSlotParams::from_values(
            fx_from_milli(750), fx_from_milli(-200), fx_from_milli(900),
            90 * SCALE, fx_from_milli(600), 0,
            fx_from_milli(100)),
        hat_open: DrumSlotParams::from_values(
            fx_from_milli(800), fx_from_milli(-200), fx_from_milli(900),
            380 * SCALE, fx_from_milli(500), 0,
            fx_from_milli(100)),
        tom: DrumSlotParams::from_values(
            fx_from_milli(850), fx_from_milli(100), fx_from_milli(600),
            260 * SCALE, fx_from_milli(450), 0,
            fx_from_milli(100)),
        perc1: DrumSlotParams::from_values(
            fx_from_milli(800), fx_from_milli(250), fx_from_milli(750),
            240 * SCALE, fx_from_milli(600), 2 * SCALE,
            fx_from_milli(200)),
        perc2: DrumSlotParams::from_values(
            fx_from_milli(800), fx_from_milli(350), fx_from_milli(650),
            240 * SCALE, fx_from_milli(550), -2 * SCALE,
            fx_from_milli(200)),
        master: MasterParams::from_values(
            fx_from_milli(350), fx_from_milli(550), fx_from_milli(200), 0,
            fx_from_milli(550)),
    }
}

/// Minimal techno kit: restrained levels, short dark hits.
pub open spec fn spec_kit_minimal_tech() -> DrumParams {
    DrumParams {
        kick: DrumSlotParams::spec_from_values(
            spec_from_milli(1000), 0, spec_from_milli(350),
            260 * (SCALE as int), spec_from_milli(650), -1 * (SCALE as int),
            spec_from_milli(150)),
        snare: DrumSlotParams::spec_from_values(
            spec_from_milli(800), spec_from_milli(50), spec_from_milli(550),
            170 * (SCALE as int), spec_from_milli(650), -2 * (SCALE as int),
            spec_from_milli(150)),
        clap: DrumSlotParams::spec_from_values(
            spec_from_milli(750), spec_from_milli(100), spec_from_milli(650),
            160 * (SCALE as int), spec_from_milli(700), 0,
            spec_from_milli(200)),
        hat_closed: DrumSlotParams::spec_from_values(
            spec_from_milli(650), spec_from_milli(-200), spec_from_milli(750),
            70 * (SCALE as int), spec_from_milli(500), 0,
            spec_from_milli(100)),
        hat_open: DrumSlotParams::spec_from_values(
            spec_from_milli(700), spec_from_milli(-250), spec_from_milli(750),
            320 * (SCALE as int), spec_from_milli(450), 0,
            spec_from_milli(100)),
        tom: DrumSlotParams::spec_from_values(
            spec_from_milli(750), spec_from_milli(150), spec_from_milli(450),
            230 * (SCALE as int), spec_from_milli(350), -1 * (SCALE as int),
            spec_from_milli(100)),
        perc1: DrumSlotParams::spec_from_values(
            spec_from_milli(650), spec_from_milli(200), spec_from_milli(600),
            220 * (SCALE as int), spec_from_milli(500), 0,
            spec_from_milli(150)),
        perc2: DrumSlotParams::spec_from_values(
            spec_from_milli(650), spec_from_milli(300), spec_from_milli(550),
            220 * (SCALE as int), spec_from_milli(450), 0,
            spec_from_milli(150)),
        master: MasterParams::spec_from_values(
            spec_from_milli(250), spec_from_milli(400), spec_from_milli(100), 0,
            spec_from_milli(450)),
    }
}

/// Minimal techno kit: restrained levels, short dark hits.
pub fn kit_minimal_tech() -> (r: DrumParams)
    ensures
        r == spec_kit_minimal_tech(),
        r.wf(),
{
    DrumParams {
        kick: DrumSlotParams::from_values(
            fx_from_milli(1000), 0, fx_from_milli(350),
            260 * SCALE, fx_from_milli(650), -1 * SCALE,
            fx_from_milli(150)),
        snare: DrumSlotParams::from_values(
            fx_from_milli(800), fx_from_milli(50), fx_from_milli(550),
            170 * SCALE, fx_from_milli(650), -2 * SCALE,
            fx_from_milli(150)),
        clap: DrumSlotParams::from_values(
            fx_from_milli(750), fx_from_milli(100), fx_from_milli(650),
            160 * SCALE, fx_from_milli(700), 0,
            fx_from_milli(200)),
        hat_closed: DrumSlotParams::from_values(
            fx_from_milli(650), fx_from_milli(-200), fx_from_milli(750),
            70 * SCALE, fx_from_milli(500), 0,
            fx_from_milli(100)),
        hat_open: DrumSlotParams::from_values(
            fx_from_milli(700), fx_from_milli(-250), fx_from_milli(750),
            320 * SCALE, fx_from_milli(450), 0,
            fx_from_milli(100)),
        tom: DrumSlotParams::from_values(
            fx_from_milli(750), fx_from_milli(150), fx_from_milli(450),
            230 * SCALE, fx_from_milli(350), -1 * SCALE,
            fx_from_milli(100)),
        perc1: DrumSlotParams::from_values(
            fx_from_milli(650), fx_from_milli(200), fx_from_milli(600),
            220 * SCALE, fx_from_milli(500), 0,
            fx_from_milli(150)),
        perc2: DrumSlotParams::from_values(
            fx_from_milli(650), fx_from_milli(300), fx_from_milli(550),
            220 * SCALE, fx_from_milli(450), 0,
            fx_from_milli(150)),
        master: MasterParams::from_values(
            fx_from_milli(250), fx_from_milli(400), fx_from_milli(100), 0,
            fx_from_milli(450)),
    }
}

/// Lo-fi kit: darker tones, dropped pitches, strong drive and humanization.
pub open spec fn spec_kit_lofi() -> DrumParams {
    DrumParams {
        kick: DrumSlotParams::spec_from_values(
            spec_from_milli(900), spec_from_milli(-50), spec_from_milli(300),
            240 * (SCALE as int), spec_from_milli(400), -3 * (SCALE as int),
            spec_from_milli(250)),
        snare: DrumSlotParams::spec_from_values(
            spec_from_milli(850), spec_from_milli(50), spec_from_milli(400),
            210 * (SCALE as int), spec_from_milli(500), -4 * (SCALE as int),
            spec_from_milli(300)),
        clap: DrumSlotParams::spec_from_values(
            spec_from_milli(800), 0, spec_from_milli(500),
            190 * (SCALE as int), spec_from_milli(550), -2 * (SCALE as int),
            spec_from_milli(300)),
        hat_closed: DrumSlotParams::spec_from_values(
            spec_from_milli(600), spec_from_milli(-100), spec_from_milli(550),
            90 * (SCALE as int), spec_from_milli(400), -4 * (SCALE as int),
            spec_from_milli(200)),
        hat_open: DrumSlotParams::spec_from_values(
            spec_from_milli(650), spec_from_milli(-100), spec_from_milli(550),
            420 * (SCALE as int), spec_from_milli(350), -4 * (SCALE as int),
            spec_from_milli(200)),
        tom: DrumSlotParams::spec_from_values(
            spec_from_milli(700), spec_from_milli(100), spec_from_milli(450),
            260 * (SCALE as int), spec_from_milli(400), -3 * (SCALE as int),
            spec_from_milli(200)),
        perc1: DrumSlotParams::spec_from_values(
            spec_from_milli(750), spec_from_milli(150), spec_from_milli(500),
            260 * (SCALE as int), spec_from_milli(450), -2 * (SCALE as int),
            spec_from_milli(300)),
        perc2: DrumSlotParams::spec_from_values(
            spec_from_milli(750), spec_from_milli(250), spec_from_milli(450),
            260 * (SCALE as int), spec_from_milli(450), -4 * (SCALE as int),
            spec_from_milli(300)),
        master: MasterParams::spec_from_values(
            spec_from_milli(550), spec_from_milli(350), spec_from_milli(300), -1 * (SCALE as int),
            spec_from_milli(400)),
    }
}

/// Lo-fi kit: darker tones, dropped pitches, strong drive and humanization.
pub fn kit_lofi() -> (r: DrumParams)
    ensures
        r == spec_kit_lofi(),
        r.wf(),
{
    DrumParams {
        kick: DrumSlotParams::from_values(
            fx_from_milli(900), fx_from_milli(-50), fx_from_milli(300),
            240 * SCALE, fx_from_milli(400), -3 * SCALE,
            fx_from_milli(250)),
        snare: DrumSlotParams::from_values(
            fx_from_milli(850), fx_from_milli(50), fx_from_milli(400),
            210 * SCALE, fx_from_milli(500), -4 * SCALE,
            fx_from_milli(300)),
        clap: DrumSlotParams::from_values(
            fx_from_milli(800), 0, fx_from_milli(500),
            190 * SCALE, fx_from_milli(550), -2 * SCALE,
            fx_from_milli(300)),
        hat_closed: DrumSlotParams::from_values(
            fx_from_milli(600), fx_from_milli(-100), fx_from_milli(550),
            90 * SCALE, fx_from_milli(400), -4 * SCALE,
            fx_from_milli(200)),
        hat_open: DrumSlotParams::from_values(
            fx_from_milli(650), fx_from_milli(-100), fx_from_milli(550),
            420 * SCALE, fx_from_milli(350), -4 * SCALE,
            fx_from_milli(200)),
        tom: DrumSlotParams::from_values(
            fx_from_milli(700), fx_from_milli(100), fx_from_milli(450),
            260 * SCALE, fx_from_milli(400), -3 * SCALE,
            fx_from_milli(200)),
        perc1: DrumSlotParams::from_values(
            fx_from_milli(750), fx_from_milli(150), fx_from_milli(500),
            260 * SCALE, fx_from_milli(450), -2 * SCALE,
            fx_from_milli(300)),
        perc2: DrumSlotParams::from_values(
            fx_from_milli(750), fx_from_milli(250), fx_from_milli(450),
            260 * SCALE, fx_from_milli(450), -4 * SCALE,
            fx_from_milli(300)),
        master: MasterParams::from_values(
            fx_from_milli(550), fx_from_milli(350), fx_from_milli(300), -1 * SCALE,
            fx_from_milli(400)),
    }
}

/// The factory kits, in menu order.
pub fn factory_kits() -> (r: Vec<Kit>)
    ensures
        r@.len() == 5,
        r@[0].params == spec_kit_init(),
        r@[1].params == spec_kit_808_clean(),
        r@[2].params == spec_kit_edm_punch(),
        r@[3].params == spec_kit_minimal_tech(),
        r@[4].params == spec_kit_lofi(),
{
    let mut v: Vec<Kit> = Vec::new();
    v.push(Kit { name: "Init", params: kit_init() });
    v.push(Kit { name: "808 Clean", params: kit_808_clean() });
    v.push(Kit { name: "EDM Punch", params: kit_edm_punch() });
    v.push(Kit { name: "Minimal Tech", params: kit_minimal_tech() });
    v.push(Kit { name: "Lo-Fi", params: kit_lofi() });
    v
}

} // verus!
