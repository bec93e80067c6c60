//! Drag-to-pan input tracker.
//!
//! Raw device events arrive as a button state and motion deltas; the tracker
//! accumulates a cumulative mouse position and a per-frame delta, both in
//! millionth units.  Motion counts only while the button is pressed; the
//! delta is zeroed once per frame by the main loop.  Accumulation saturates
//! at `POS_LIMIT`, the tracker's coordinate range.

use vstd::prelude::*;

verus! {

/// Magnitude limit of tracked coordinates and accepted deltas, in millionth
/// units (a billion whole pixels).  Accumulation saturates here instead of
/// wrapping.
pub const POS_LIMIT: i64 = 1_000_000_000_000_000;

/// Addition saturated to `[-POS_LIMIT, POS_LIMIT]`.
pub open spec fn sat_add(a: int, b: int) -> int {
    if a + b > POS_LIMIT {
        POS_LIMIT as int
    } else if a + b < -POS_LIMIT {
        -POS_LIMIT as int
    } else {
        a + b
    }
}

/// Mouse state accumulated from raw device events.
#[derive(Clone, Copy, Debug)]
pub struct Input {
    /// Whether the mouse button is currently pressed.
    pub pressed: bool,
    /// Per-frame motion accumulator, in millionth units.
    pub delta_x: i64,
    pub delta_y: i64,
    /// Cumulative drag position, in millionth units.
    pub pos_x: i64,
    pub pos_y: i64,
}

impl Input {
    /// All coordinates lie within the tracker's range.
    pub open spec fn wf(self) -> bool {
        &&& -POS_LIMIT <= self.delta_x <= POS_LIMIT
        &&& -POS_LIMIT <= self.delta_y <= POS_LIMIT
        &&& -POS_LIMIT <= self.pos_x <= POS_LIMIT
        &&& -POS_LIMIT <= self.pos_y <= POS_LIMIT
    }

    /// A fresh tracker: button released, position and delta at the origin.
    pub fn new() -> (inp: Self)
        ensures
            !inp.pressed,
            inp.delta_x == 0 && inp.delta_y == 0,
            inp.pos_x == 0 && inp.pos_y == 0,
            inp.wf(),
    {
        Input { pressed: false, delta_x: 0, delta_y: 0, pos_x: 0, pos_y: 0 }
    }

    /// Records the button state; nothing else changes.
    pub fn update_mouse(&mut self, pressed: bool)
        ensures
            *final(self) == (Input { pressed, ..*old(self) }),
    {
        self.pressed = pressed;
    }

    /// Feeds one motion event.  While the button is pressed the delta adds to
    /// both the per-frame accumulator and the cumulative position, saturating
    /// at the tracker's range; while released, motion is ignored entirely.
    pub fn update_mouse_motion(&mut self, dx: i64, dy: i64)
        requires
            old(self).wf(),
            -POS_LIMIT <= dx <= POS_LIMIT,
            -POS_LIMIT <= dy <= POS_LIMIT,
        ensures
            old(self).pressed ==> *final(self) == (Input {
                delta_x: sat_add(old(self).delta_x as int, dx as int) as i64,
                delta_y: sat_add(old(self).delta_y as int, dy as int) as i64,
                pos_x: sat_add(old(self).pos_x as int, dx as int) as i64,
                pos_y: sat_add(old(self).pos_y as int, dy as int) as i64,
                ..*old(self)
            }),
            !old(self).pressed ==> *final(self) == *old(self),
            final(self).wf(),
    {
        if self.pressed {
            self.delta_x = sat_add_units(self.delta_x, dx);
            self.delta_y = sat_add_units(self.delta_y, dy);
            self.pos_x = sat_add_units(self.pos_x, dx);
            self.pos_y = sat_add_units(self.pos_y, dy);
        }
    }

    /// The cumulative drag position, in millionth units.
    pub fn mouse_pos(&self) -> (p: (i64, i64))
        ensures
            p.0 == self.pos_x,
            p.1 == self.pos_y,
    {
        (self.pos_x, self.pos_y)
    }

    /// Zeroes the per-frame delta; the cumulative position and the button
    /// state are untouched.  Called exactly once per frame by the main loop.
    pub fn reset_delta(&mut self)
        ensures
            *final(self) == (Input { delta_x: 0, delta_y: 0, ..*old(self) }),
    {
        self.delta_x = 0;
        self.delta_y = 0;
    }
}

/// One saturated coordinate step.
fn sat_add_units(a: i64, b: i64) -> (r: i64)
    requires
        -POS_LIMIT <= a <= POS_LIMIT,
        -POS_LIMIT <= b <= POS_LIMIT,
    ensures
        r == sat_add(a as int, b as int),
        -POS_LIMIT <= r <= POS_LIMIT,
{
    let s: i64 = a + b;
    if s > POS_LIMIT {
        POS_LIMIT
    } else if s < -POS_LIMIT {
        -POS_LIMIT
    } else {
        s
    }
}

} // verus!
