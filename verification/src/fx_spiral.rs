//! The "Spiral" particle effect: a spiral-distributed colored field with a
//! mirrored ground "shadow" for every particle.
//!
//! The per-frame loop runs over the working half of the shared buffers; each
//! index `i` (with `g = i * 4`) yields a main instance riding the spiral at
//! height `h`, and a shadow instance flattened to the ground, written to the
//! slot `working + i`.  Main colours are computed once on the first update;
//! shadow colours are recomputed every frame.
//!
//! With `t = time`:
//!
//! ```text
//! off  = sin(g*0.13 + t*0.3) * cos(g*0.43 + t*0.1) * 0.02
//! ang  = g * 0.006 + off
//! dist = 5 * g / 40000
//! x    = cos(ang) * dist + off * 0.2
//! z    = sin(ang) * dist - off * 0.3
//! h    = 0.4 + sin(0.0297*g + t*1.9) * sin(0.00594*g + t*2.9) * 0.3
//! main:   position (x, h, z), scale 0.08 + cos(g*24.3)*0.03
//! shadow: position (x, 0, z),
//!         scale (0.09 + cos(g*24.3)*0.03) * saturate(1 - h*2.5) * 25,
//!         colour channels saturated, alpha saturate(1 - h*2.5) * 0.3
//! ```

use vstd::prelude::*;

use crate::particles::{unit_trig, Instance, InstanceModel, TIME_MAG};
use crate::ramp::{Color, ColorRamp, Stop};
use crate::scalar::{lemma_mag_mul, lemma_pos_mul, Frac, Rational, SCALE};

verus! {

/// Focus depth of the effect's depth-of-field shading, in millionth units
/// (`-4.0`); handed to the GPU as the `depth` uniform.
pub const SPIRAL_FOCUS_DEPTH: i64 = -4_000_000;

/// Aperture uniform of the effect, in millionth units (`0.03`); part of the
/// binding contract though unused by the fragment math.
pub const SPIRAL_APERTURE: i64 = 30_000;

/// The waveform phases a Spiral particle samples, exact; `g = i * 4`.
#[derive(Clone, Copy, Debug)]
pub struct SpiralPhases {
    /// First swirl argument: `g * 0.13 + time * 0.3`.
    pub swirl_a: Rational,
    /// Second swirl argument: `g * 0.43 + time * 0.1`.
    pub swirl_b: Rational,
    /// First height argument: `g * 0.0297 + time * 1.9`.
    pub rise_a: Rational,
    /// Second height argument: `g * 0.00594 + time * 2.9`.
    pub rise_b: Rational,
    /// Scale twinkle argument: `g * 24.3`.
    pub twinkle: Rational,
    /// Colour lookup argument: `g * 2.3`.
    pub shade: Rational,
}

/// The phases of particle `i` at elapsed time `time` (millionth units).
pub fn spiral_phases(i: u32, time: i64) -> (p: SpiralPhases)
    requires
        i <= 1_000_000,
        -TIME_MAG <= time <= TIME_MAG,
    ensures
        p.swirl_a@ == (Frac { num: 15 * time + 26 * (i * (SCALE as int)), den: 50 * SCALE }),
        p.swirl_b@ == (Frac { num: 5 * time + 86 * (i * (SCALE as int)), den: 50 * SCALE }),
        p.rise_a@ == (Frac { num: 9500 * time + 594 * (i * (SCALE as int)), den: 5000 * SCALE }),
        p.rise_b@ == (Frac { num: 72500 * time + 594 * (i * (SCALE as int)), den: 25000 * SCALE }),
        p.twinkle@ == (Frac { num: 486 * i, den: 5 }),
        p.shade@ == (Frac { num: 46 * i, den: 5 }),
        p.swirl_a.wf() && p.swirl_b.wf() && p.rise_a.wf() && p.rise_b.wf() && p.twinkle.wf()
            && p.shade.wf(),
{
    proof {
        lemma_mag_mul(i as int, SCALE as int, 1_000_000, SCALE as int);
        lemma_pos_mul(50, SCALE as int);
        lemma_pos_mul(5000, SCALE as int);
        lemma_pos_mul(25000, SCALE as int);
    }
    let scaled_i: i128 = i as i128 * SCALE as i128;
    SpiralPhases {
        swirl_a: Rational { num: 15 * time as i128 + 26 * scaled_i, den: 50 * SCALE as i128 },
        swirl_b: Rational { num: 5 * time as i128 + 86 * scaled_i, den: 50 * SCALE as i128 },
        rise_a: Rational {
            num: 9500 * time as i128 + 594 * scaled_i,
            den: 5000 * SCALE as i128,
        },
        rise_b: Rational {
            num: 72500 * time as i128 + 594 * scaled_i,
            den: 25000 * SCALE as i128,
        },
        twinkle: Rational { num: 486 * i as i128, den: 5 },
        shade: Rational { num: 46 * i as i128, den: 5 },
    }
}

/// The swirl offset `sin(swirl_a) * cos(swirl_b) * 0.02`, exact over the
/// denominator `50 * SCALE * SCALE`.
pub fn spiral_swirl(sin_a: i64, cos_b: i64) -> (off: Rational)
    requires
        unit_trig(sin_a as int),
        unit_trig(cos_b as int),
    ensures
        off@ == (Frac { num: sin_a * cos_b, den: 50 * (SCALE * SCALE) }),
        -(SCALE * SCALE) <= off@.num <= SCALE * SCALE,
        off.wf(),
{
    proof {
        lemma_mag_mul(sin_a as int, cos_b as int, SCALE as int, SCALE as int);
        lemma_mag_mul(SCALE as int, SCALE as int, SCALE as int, SCALE as int);
        lemma_pos_mul(SCALE as int, SCALE as int);
    }
    Rational {
        num: sin_a as i128 * cos_b as i128,
        den: 50 * (SCALE as i128 * SCALE as i128),
    }
}

/// The spiral angle of particle `i`: `(i * 4) * 0.006 + off`, exact.
pub fn spiral_angle(i: u32, off: &Rational) -> (ang: Rational)
    requires
        i <= 1_000_000,
        off@.den == 50 * (SCALE * SCALE),
        -(SCALE * SCALE) <= off@.num <= SCALE * SCALE,
    ensures
        ang@ == (Frac {
            num: 6 * (i * (SCALE * SCALE)) + 5 * off@.num,
            den: 250 * (SCALE * SCALE),
        }),
        ang.wf(),
{
    proof {
        lemma_mag_mul(SCALE as int, SCALE as int, SCALE as int, SCALE as int);
        lemma_mag_mul(
            i as int,
            SCALE as int * SCALE as int,
            1_000_000,
            SCALE as int * SCALE as int,
        );
        lemma_pos_mul(SCALE as int, SCALE as int);
    }
    let square: i128 = SCALE as i128 * SCALE as i128;
    Rational { num: 6 * (i as i128 * square) + 5 * off.num, den: 250 * square }
}

/// The particle height `0.4 + sin(rise_a) * sin(rise_b) * 0.3`, exact over
/// the denominator `10 * SCALE * SCALE`.
pub fn spiral_rise(sin_a: i64, sin_b: i64) -> (h: Rational)
    requires
        unit_trig(sin_a as int),
        unit_trig(sin_b as int),
    ensures
        h@ == (Frac {
            num: 4 * (SCALE * SCALE) + 3 * (sin_a * sin_b),
            den: 10 * (SCALE * SCALE),
        }),
        h@.den == 10 * (SCALE * SCALE),
        -(7 * (SCALE * SCALE)) <= h@.num <= 7 * (SCALE * SCALE),
        h.wf(),
{
    proof {
        lemma_mag_mul(sin_a as int, sin_b as int, SCALE as int, SCALE as int);
        lemma_mag_mul(SCALE as int, SCALE as int, SCALE as int, SCALE as int);
        lemma_pos_mul(SCALE as int, SCALE as int);
    }
    let square: i128 = SCALE as i128 * SCALE as i128;
    Rational { num: 4 * square + 3 * (sin_a as i128 * sin_b as i128), den: 10 * square }
}

/// The ground-shadow fade `saturate(1 - h * 2.5)`.
pub open spec fn shadow_fade(h: Frac) -> Frac {
    (Frac { num: 2 * h.den - 5 * h.num, den: 2 * h.den }).saturated()
}

/// The x and z coordinates shared by a particle's main and shadow instances:
/// `cos(ang) * dist + off * 0.2` and `sin(ang) * dist - off * 0.3`, with
/// `dist = i / 2000`, over the denominator `2000 * SCALE * SCALE`.
pub open spec fn spiral_ground(i: int, sin_ang: int, cos_ang: int, off_num: int) -> (Frac, Frac) {
    (
        Frac { num: (cos_ang * i) * SCALE + 8 * off_num, den: 2000 * (SCALE * SCALE) },
        Frac { num: (sin_ang * i) * SCALE - 12 * off_num, den: 2000 * (SCALE * SCALE) },
    )
}

/// The main instance of particle `i` given its sampled waveforms.
pub open spec fn spiral_main_model(
    i: int,
    sin_ang: int,
    cos_ang: int,
    off_num: int,
    h: Frac,
    cos_twinkle: int,
) -> InstanceModel {
    InstanceModel {
        x: spiral_ground(i, sin_ang, cos_ang, off_num).0,
        y: h,
        z: spiral_ground(i, sin_ang, cos_ang, off_num).1,
        scale: Frac { num: 8 * SCALE + 3 * cos_twinkle, den: 100 * SCALE },
    }
}

/// The shadow instance of particle `i`: the main position flattened to the
/// ground, its scale widened and faded by the particle's height.
pub open spec fn spiral_shadow_model(
    i: int,
    sin_ang: int,
    cos_ang: int,
    off_num: int,
    h: Frac,
    cos_twinkle: int,
) -> InstanceModel {
    InstanceModel {
        x: spiral_ground(i, sin_ang, cos_ang, off_num).0,
        y: Frac { num: 0, den: 1 },
        z: spiral_ground(i, sin_ang, cos_ang, off_num).1,
        scale: Frac {
            num: 25 * ((9 * SCALE + 3 * cos_twinkle) * shadow_fade(h).num),
            den: 100 * (SCALE * shadow_fade(h).den),
        },
    }
}

/// Builds the main instance of particle `i` from its sampled waveforms, the
/// swirl offset and the height.
pub fn spiral_main_instance(
    i: u32,
    sin_ang: i64,
    cos_ang: i64,
    off: &Rational,
    h: &Rational,
    cos_twinkle: i64,
) -> (inst: Instance)
    requires
        i <= 1_000_000,
        unit_trig(sin_ang as int),
        unit_trig(cos_ang as int),
        unit_trig(cos_twinkle as int),
        off@.den == 50 * (SCALE * SCALE),
        -(SCALE * SCALE) <= off@.num <= SCALE * SCALE,
        h@.den == 10 * (SCALE * SCALE),
        -(7 * (SCALE * SCALE)) <= h@.num <= 7 * (SCALE * SCALE),
    ensures
        inst@ == spiral_main_model(
            i as int,
            sin_ang as int,
            cos_ang as int,
            off@.num,
            h@,
            cos_twinkle as int,
        ),
        inst.wf(),
{
    proof {
        lemma_mag_mul(SCALE as int, SCALE as int, SCALE as int, SCALE as int);
        lemma_pos_mul(SCALE as int, SCALE as int);
        lemma_mag_mul(cos_ang as int, i as int, SCALE as int, 1_000_000);
        lemma_mag_mul(sin_ang as int, i as int, SCALE as int, 1_000_000);
        lemma_mag_mul(
            cos_ang as int * i as int,
            SCALE as int,
            SCALE as int * 1_000_000,
            SCALE as int,
        );
        lemma_mag_mul(
            sin_ang as int * i as int,
            SCALE as int,
            SCALE as int * 1_000_000,
            SCALE as int,
        );
        lemma_pos_mul(100, SCALE as int);
    }
    let square: i128 = SCALE as i128 * SCALE as i128;
    Instance {
        x: Rational {
            num: (cos_ang as i128 * i as i128) * SCALE as i128 + 8 * off.num,
            den: 2000 * square,
        },
        y: *h,
        z: Rational {
            num: (sin_ang as i128 * i as i128) * SCALE as i128 - 12 * off.num,
            den: 2000 * square,
        },
        scale: Rational {
            num: 8 * SCALE as i128 + 3 * cos_twinkle as i128,
            den: 100 * SCALE as i128,
        },
    }
}

/// Builds the shadow instance of particle `i`: grounded at height zero, its
/// scale `(0.09 + cos_twinkle * 0.03) * saturate(1 - h * 2.5) * 25`.
pub fn spiral_shadow_instance(
    i: u32,
    sin_ang: i64,
    cos_ang: i64,
    off: &Rational,
    h: &Rational,
    cos_twinkle: i64,
) -> (inst: Instance)
    requires
        i <= 1_000_000,
        unit_trig(sin_ang as int),
        unit_trig(cos_ang as int),
        unit_trig(cos_twinkle as int),
        off@.den == 50 * (SCALE * SCALE),
        -(SCALE * SCALE) <= off@.num <= SCALE * SCALE,
        h@.den == 10 * (SCALE * SCALE),
        -(7 * (SCALE * SCALE)) <= h@.num <= 7 * (SCALE * SCALE),
    ensures
        inst@ == spiral_shadow_model(
            i as int,
            sin_ang as int,
            cos_ang as int,
            off@.num,
            h@,
            cos_twinkle as int,
        ),
        inst.wf(),
{
    proof {
        lemma_mag_mul(SCALE as int, SCALE as int, SCALE as int, SCALE as int);
        lemma_pos_mul(SCALE as int, SCALE as int);
        lemma_mag_mul(cos_ang as int, i as int, SCALE as int, 1_000_000);
        lemma_mag_mul(sin_ang as int, i as int, SCALE as int, 1_000_000);
        lemma_mag_mul(
            cos_ang as int * i as int,
            SCALE as int,
            SCALE as int * 1_000_000,
            SCALE as int,
        );
        lemma_mag_mul(
            sin_ang as int * i as int,
            SCALE as int,
            SCALE as int * 1_000_000,
            SCALE as int,
        );
    }
    let square: i128 = SCALE as i128 * SCALE as i128;
    let lift = Rational { num: 2 * h.den - 5 * h.num, den: 2 * h.den };
    let fade = lift.saturate();
    proof {
        lemma_mag_mul(
            9 * SCALE as int + 3 * cos_twinkle as int,
            fade@.num,
            12 * SCALE as int,
            fade@.den,
        );
        lemma_mag_mul(SCALE as int, fade@.den, SCALE as int, fade@.den);
        lemma_pos_mul(SCALE as int, fade@.den);
    }
    Instance {
        x: Rational {
            num: (cos_ang as i128 * i as i128) * SCALE as i128 + 8 * off.num,
            den: 2000 * square,
        },
        y: Rational { num: 0, den: 1 },
        z: Rational {
            num: (sin_ang as i128 * i as i128) * SCALE as i128 - 12 * off.num,
            den: 2000 * square,
        },
        scale: Rational {
            num: 25 * ((9 * SCALE as i128 + 3 * cos_twinkle as i128) * fade.num),
            den: 100 * (SCALE as i128 * fade.den),
        },
    }
}

/// The shadow's colour: the ramp colour with every channel clamped to the
/// unit interval, its alpha replaced by `saturate(1 - h * 2.5) * 0.3`; unlike
/// the main colours it is recomputed every frame.
pub fn spiral_shadow_color(base: &Color, h: &Rational) -> (c: Color)
    requires
        base.wf(),
        h@.den == 10 * (SCALE * SCALE),
        -(7 * (SCALE * SCALE)) <= h@.num <= 7 * (SCALE * SCALE),
    ensures
        c.red@ == base.red@.saturated(),
        c.green@ == base.green@.saturated(),
        c.blue@ == base.blue@.saturated(),
        c.alpha@ == (Frac { num: 3 * shadow_fade(h@).num, den: 10 * shadow_fade(h@).den }),
        c.wf(),
{
    proof {
        lemma_mag_mul(SCALE as int, SCALE as int, SCALE as int, SCALE as int);
    }
    let lift = Rational { num: 2 * h.den - 5 * h.num, den: 2 * h.den };
    let fade = lift.saturate();
    Color {
        red: base.red.saturate(),
        green: base.green.saturate(),
        blue: base.blue.saturate(),
        alpha: Rational { num: 3 * fade.num, den: 10 * fade.den },
    }
}

/// The effect's three-stop colour ramp: `(0.05, 0.90, 0.65, 1)` at `0`,
/// `(0.85, 0.25, 0.05, 1)` at `0.999`, and the overbright `(11, 7, 2, 5)` at
/// `1`.
pub fn spiral_color_ramp() -> (ramp: ColorRamp)
    ensures
        ramp.stops@.len() == 3,
        ramp.stops@[0] == (Stop {
            red: 50_000,
            green: 900_000,
            blue: 650_000,
            alpha: 1_000_000,
            pos: 0,
        }),
        ramp.stops@[1] == (Stop {
            red: 850_000,
            green: 250_000,
            blue: 50_000,
            alpha: 1_000_000,
            pos: 999_000,
        }),
        ramp.stops@[2] == (Stop {
            red: 11_000_000,
            green: 7_000_000,
            blue: 2_000_000,
            alpha: 5_000_000,
            pos: 1_000_000,
        }),
        ramp.wf(),
{
    let mut stops: Vec<Stop> = Vec::new();
    stops.push(Stop { red: 50_000, green: 900_000, blue: 650_000, alpha: 1_000_000, pos: 0 });
    stops.push(Stop { red: 850_000, green: 250_000, blue: 50_000, alpha: 1_000_000, pos: 999_000 });
    stops.push(
        Stop {
            red: 11_000_000,
            green: 7_000_000,
            blue: 2_000_000,
            alpha: 5_000_000,
            pos: 1_000_000,
        },
    );
    ColorRamp { stops }
}

} // verus!
