//! The "Field" particle effect: colored, depth-scaled billboard particles.
//!
//! Positions are recomputed every frame as a pure function of index and
//! elapsed time; colours are computed once, on the first update, from the
//! effect's two-stop ramp driven by a sine of the index.  The formulas are
//! affine in the sampled waveforms, which the shell samples at the exact
//! phases computed here.
//!
//! With `t = time * 2`:
//!
//! ```text
//! ang    = t * 0.25  + i * 0.005
//! sway_x = i * 0.012 + t * 0.85
//! sway_z = i * 0.015 + t * 1.32
//! shade  = (i * 4) * 2.3
//! position = (sin(ang) * 2 + sin(sway_x) * 0.31,
//!             -3.5 + i * 0.0003,
//!             cos(ang) * 2 + sin(sway_z) * 0.26)
//! scale    = 0.05
//! colour   = ramp(sin(shade) * 0.5 + 0.5)   (first update only)
//! ```

use vstd::prelude::*;

use crate::particles::{unit_trig, Instance, InstanceModel, TIME_MAG};
use crate::ramp::{ColorRamp, Stop};
use crate::scalar::{Frac, Rational, SCALE};

verus! {

/// Focus depth of the effect's depth-of-field shading, in millionth units
/// (`-3.5`); handed to the GPU as the `depth` uniform.
pub const FIELD_FOCUS_DEPTH: i64 = -3_500_000;

/// Aperture uniform of the effect, in millionth units (`0.02`); part of the
/// binding contract though unused by the fragment math.
pub const FIELD_APERTURE: i64 = 20_000;

/// The waveform phases a Field particle samples, exact.
#[derive(Clone, Copy, Debug)]
pub struct FieldPhases {
    /// Angle around the ring: `time * 0.5 + i * 0.005`.
    pub ang: Rational,
    /// Horizontal sway argument: `i * 0.012 + time * 1.7`.
    pub sway_x: Rational,
    /// Depth sway argument: `i * 0.015 + time * 2.64`.
    pub sway_z: Rational,
    /// Colour lookup argument: `(i * 4) * 2.3`.
    pub shade: Rational,
}

/// The phases of particle `i` at elapsed time `time` (millionth units).
pub fn field_phases(i: u32, time: i64) -> (p: FieldPhases)
    requires
        i <= 1_000_000,
        -TIME_MAG <= time <= TIME_MAG,
    ensures
        p.ang@ == (Frac { num: 100 * time + i * (SCALE as int), den: 200 * SCALE }),
        p.sway_x@ == (Frac { num: 850 * time + 6 * (i * (SCALE as int)), den: 500 * SCALE }),
        p.sway_z@ == (Frac { num: 528 * time + 3 * (i * (SCALE as int)), den: 200 * SCALE }),
        p.shade@ == (Frac { num: 46 * i, den: 5 }),
        p.ang.wf() && p.sway_x.wf() && p.sway_z.wf() && p.shade.wf(),
{
    proof {
        crate::scalar::lemma_mag_mul(i as int, SCALE as int, 1_000_000, SCALE as int);
        crate::scalar::lemma_pos_mul(200, SCALE as int);
        crate::scalar::lemma_pos_mul(500, SCALE as int);
    }
    let scaled_i: i128 = i as i128 * SCALE as i128;
    FieldPhases {
        ang: Rational { num: 100 * time as i128 + scaled_i, den: 200 * SCALE as i128 },
        sway_x: Rational { num: 850 * time as i128 + 6 * scaled_i, den: 500 * SCALE as i128 },
        sway_z: Rational { num: 528 * time as i128 + 3 * scaled_i, den: 200 * SCALE as i128 },
        shade: Rational { num: 46 * i as i128, den: 5 },
    }
}

/// The instance record of particle `i` given its sampled waveforms.
pub open spec fn field_instance_model(
    i: int,
    sin_ang: int,
    cos_ang: int,
    sin_sway_x: int,
    sin_sway_z: int,
) -> InstanceModel {
    InstanceModel {
        x: Frac { num: 200 * sin_ang + 31 * sin_sway_x, den: 100 * SCALE },
        y: Frac { num: 300 * i - 3_500_000, den: SCALE as int },
        z: Frac { num: 200 * cos_ang + 26 * sin_sway_z, den: 100 * SCALE },
        scale: Frac { num: 1, den: 20 },
    }
}

/// Builds the instance record of particle `i` from its sampled waveforms
/// (millionth units): the position on the doubled, swaying ring and the
/// constant billboard scale.
pub fn field_instance(
    i: u32,
    sin_ang: i64,
    cos_ang: i64,
    sin_sway_x: i64,
    sin_sway_z: i64,
) -> (inst: Instance)
    requires
        i <= 1_000_000,
        unit_trig(sin_ang as int),
        unit_trig(cos_ang as int),
        unit_trig(sin_sway_x as int),
        unit_trig(sin_sway_z as int),
    ensures
        inst@ == field_instance_model(
            i as int,
            sin_ang as int,
            cos_ang as int,
            sin_sway_x as int,
            sin_sway_z as int,
        ),
        inst.wf(),
{
    proof {
        crate::scalar::lemma_pos_mul(100, SCALE as int);
    }
    Instance {
        x: Rational {
            num: 200 * sin_ang as i128 + 31 * sin_sway_x as i128,
            den: 100 * SCALE as i128,
        },
        y: Rational { num: 300 * i as i128 - 3_500_000, den: SCALE as i128 },
        z: Rational {
            num: 200 * cos_ang as i128 + 26 * sin_sway_z as i128,
            den: 100 * SCALE as i128,
        },
        scale: Rational { num: 1, den: 20 },
    }
}

/// The effect's two-stop colour ramp: the base colours `(0.17, 0, 0.83, 1)`
/// at position `0` and `(1, 0.27, 0.41, 1)` at position `1`, every component
/// scaled by the brightness `7`.
pub fn field_color_ramp() -> (ramp: ColorRamp)
    ensures
        ramp.stops@.len() == 2,
        ramp.stops@[0] == (Stop {
            red: 1_190_000,
            green: 0,
            blue: 5_810_000,
            alpha: 7_000_000,
            pos: 0,
        }),
        ramp.stops@[1] == (Stop {
            red: 7_000_000,
            green: 1_890_000,
            blue: 2_870_000,
            alpha: 7_000_000,
            pos: 1_000_000,
        }),
        ramp.wf(),
{
    let mut stops: Vec<Stop> = Vec::new();
    stops.push(Stop { red: 1_190_000, green: 0, blue: 5_810_000, alpha: 7_000_000, pos: 0 });
    stops.push(
        Stop { red: 7_000_000, green: 1_890_000, blue: 2_870_000, alpha: 7_000_000, pos: 1_000_000 },
    );
    ColorRamp { stops }
}

} // verus!
