//! The "Lines" particle effect: uncolored billboard particles.
//!
//! Each frame, every particle's position and scale are recomputed as a pure
//! function of its index and the elapsed time.  The formulas are affine in a
//! handful of sine and cosine samples; the shell samples those waveforms at
//! the exact phases computed here and hands the samples back, quantised to
//! millionth units.
//!
//! With `t = time * 2`:
//!
//! ```text
//! ang     = t * 0.25 + i * 0.005
//! sway_x  = i * 0.01  + t * 0.25
//! sway_z  = i * 0.006 + t * 0.2
//! twinkle = i * 0.01
//! position = (sin(ang) + sin(sway_x) * 0.25,
//!             -1.5 + i * 0.00015,
//!             cos(ang) + sin(sway_z) * 0.22)
//! scale    = 0.03 + sin(twinkle) * 0.01
//! ```

use vstd::prelude::*;

use crate::particles::{unit_trig, Instance, InstanceModel, TIME_MAG};
use crate::scalar::{Frac, Rational, SCALE};

verus! {

/// The waveform phases a Lines particle samples, exact.
#[derive(Clone, Copy, Debug)]
pub struct LinesPhases {
    /// Angle around the ring: `time * 0.5 + i * 0.005`.
    pub ang: Rational,
    /// Horizontal sway argument: `i * 0.01 + time * 0.5`.
    pub sway_x: Rational,
    /// Depth sway argument: `i * 0.006 + time * 0.4`.
    pub sway_z: Rational,
    /// Scale twinkle argument: `i * 0.01`.
    pub twinkle: Rational,
}

/// The phases of particle `i` at elapsed time `time` (millionth units).
pub fn lines_phases(i: u32, time: i64) -> (p: LinesPhases)
    requires
        i <= 1_000_000,
        -TIME_MAG <= time <= TIME_MAG,
    ensures
        p.ang@ == (Frac { num: 100 * time + i * (SCALE as int), den: 200 * SCALE }),
        p.sway_x@ == (Frac { num: 100 * time + 2 * (i * (SCALE as int)), den: 200 * SCALE }),
        p.sway_z@ == (Frac { num: 200 * time + 3 * (i * (SCALE as int)), den: 500 * SCALE }),
        p.twinkle@ == (Frac { num: i as int, den: 100 }),
        p.ang.wf() && p.sway_x.wf() && p.sway_z.wf() && p.twinkle.wf(),
{
    proof {
        crate::scalar::lemma_mag_mul(i as int, SCALE as int, 1_000_000, SCALE as int);
        crate::scalar::lemma_pos_mul(200, SCALE as int);
        crate::scalar::lemma_pos_mul(500, SCALE as int);
    }
    let scaled_i: i128 = i as i128 * SCALE as i128;
    LinesPhases {
        ang: Rational { num: 100 * time as i128 + scaled_i, den: 200 * SCALE as i128 },
        sway_x: Rational { num: 100 * time as i128 + 2 * scaled_i, den: 200 * SCALE as i128 },
        sway_z: Rational { num: 200 * time as i128 + 3 * scaled_i, den: 500 * SCALE as i128 },
        twinkle: Rational { num: i as i128, den: 100 },
    }
}

/// The instance record of particle `i` given its sampled waveforms.
pub open spec fn lines_instance_model(
    i: int,
    sin_ang: int,
    cos_ang: int,
    sin_sway_x: int,
    sin_sway_z: int,
    sin_twinkle: int,
) -> InstanceModel {
    InstanceModel {
        x: Frac { num: 4 * sin_ang + sin_sway_x, den: 4 * SCALE },
        y: Frac { num: 150 * i - 1_500_000, den: SCALE as int },
        z: Frac { num: 100 * cos_ang + 22 * sin_sway_z, den: 100 * SCALE },
        scale: Frac { num: 3 * SCALE + sin_twinkle, den: 100 * SCALE },
    }
}

/// Builds the instance record of particle `i` from its sampled waveforms
/// (millionth units): the position on the slowly swaying ring and the
/// twinkling billboard scale.
pub fn lines_instance(
    i: u32,
    sin_ang: i64,
    cos_ang: i64,
    sin_sway_x: i64,
    sin_sway_z: i64,
    sin_twinkle: i64,
) -> (inst: Instance)
    requires
        i <= 1_000_000,
        unit_trig(sin_ang as int),
        unit_trig(cos_ang as int),
        unit_trig(sin_sway_x as int),
        unit_trig(sin_sway_z as int),
        unit_trig(sin_twinkle as int),
    ensures
        inst@ == lines_instance_model(
            i as int,
            sin_ang as int,
            cos_ang as int,
            sin_sway_x as int,
            sin_sway_z as int,
            sin_twinkle as int,
        ),
        inst.wf(),
{
    proof {
        crate::scalar::lemma_pos_mul(4, SCALE as int);
        crate::scalar::lemma_pos_mul(100, SCALE as int);
    }
    Instance {
        x: Rational {
            num: 4 * sin_ang as i128 + sin_sway_x as i128,
            den: 4 * SCALE as i128,
        },
        y: Rational { num: 150 * i as i128 - 1_500_000, den: SCALE as i128 },
        z: Rational {
            num: 100 * cos_ang as i128 + 22 * sin_sway_z as i128,
            den: 100 * SCALE as i128,
        },
        scale: Rational {
            num: 3 * SCALE as i128 + sin_twinkle as i128,
            den: 100 * SCALE as i128,
        },
    }
}

} // verus!
