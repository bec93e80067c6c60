//! Camera controller.
//!
//! The camera orbits at a fixed distance and derives its position each frame
//! from the cumulative mouse position and the window size.  The view and
//! projection matrices built from that position are trigonometric and live in
//! the unverified shell; what is derived here is the exact position,
//!
//! ```text
//! x = (mouse_x / width  + 0.5) * 10
//! y = (mouse_y / height + 0.5) * 2
//! z = distance
//! ```

use vstd::prelude::*;

use crate::input::POS_LIMIT;
use crate::scalar::{Frac, Rational, SCALE};

verus! {

/// Camera state: the fixed field-of-view fraction and orbit distance, in
/// millionth units, and the derived position.
#[derive(Clone, Copy, Debug)]
pub struct Camera {
    /// Fraction of a half-turn giving the vertical field of view, in
    /// millionth units.
    pub fov: i64,
    /// Orbit distance, in millionth units.
    pub distance: i64,
    pub pos_x: Rational,
    pub pos_y: Rational,
    pub pos_z: Rational,
}

/// The camera position derived from the mouse and the window: the x
/// component.
pub open spec fn camera_x(mouse_x: int, width: int) -> Frac {
    Frac { num: 10 * mouse_x + 5 * (SCALE * width), den: SCALE * width }
}

/// The camera position derived from the mouse and the window: the y
/// component.
pub open spec fn camera_y(mouse_y: int, height: int) -> Frac {
    Frac { num: 2 * mouse_y + SCALE * height, den: SCALE * height }
}

impl Camera {
    /// Every position component has a positive denominator.
    pub open spec fn wf(self) -> bool {
        self.pos_x.wf() && self.pos_y.wf() && self.pos_z.wf()
    }

    /// A camera at the start position `(0, 0, distance)`.
    pub fn new(fov: i64, distance: i64) -> (cam: Self)
        ensures
            cam.fov == fov,
            cam.distance == distance,
            cam.pos_x@ == (Frac { num: 0, den: 1 }),
            cam.pos_y@ == (Frac { num: 0, den: 1 }),
            cam.pos_z@ == (Frac { num: distance as int, den: SCALE as int }),
            cam.wf(),
    {
        Camera {
            fov,
            distance,
            pos_x: Rational::from_int(0),
            pos_y: Rational::from_int(0),
            pos_z: Rational::from_units(distance),
        }
    }

    /// Derives the frame's position from the cumulative mouse position (in
    /// millionth units) and the window size in pixels; field of view and
    /// distance never change.
    pub fn update(&mut self, mouse_x: i64, mouse_y: i64, width: u32, height: u32)
        requires
            1 <= width,
            1 <= height,
            -POS_LIMIT <= mouse_x <= POS_LIMIT,
            -POS_LIMIT <= mouse_y <= POS_LIMIT,
        ensures
            final(self).fov == old(self).fov,
            final(self).distance == old(self).distance,
            final(self).pos_x@ == camera_x(mouse_x as int, width as int),
            final(self).pos_y@ == camera_y(mouse_y as int, height as int),
            final(self).pos_z@ == (Frac { num: old(self).distance as int, den: SCALE as int }),
            final(self).wf(),
    {
        proof {
            crate::scalar::lemma_mag_mul(SCALE as int, width as int, SCALE as int, 0x1_0000_0000);
            crate::scalar::lemma_mag_mul(SCALE as int, height as int, SCALE as int, 0x1_0000_0000);
            crate::scalar::lemma_pos_mul(SCALE as int, width as int);
            crate::scalar::lemma_pos_mul(SCALE as int, height as int);
        }
        self.pos_x = Rational {
            num: 10 * mouse_x as i128 + 5 * (SCALE as i128 * width as i128),
            den: SCALE as i128 * width as i128,
        };
        self.pos_y = Rational {
            num: 2 * mouse_y as i128 + SCALE as i128 * height as i128,
            den: SCALE as i128 * height as i128,
        };
        self.pos_z = Rational::from_units(self.distance);
    }
}

} // verus!
