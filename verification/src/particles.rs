//! Shared particle bookkeeping.
//!
//! The three effects animate fixed-capacity instance buffers: each instance
//! is a position plus scale record (and, for the coloured effects, a colour
//! record) of four 32-bit components.  This module holds what the effects
//! share: the buffer sizing, the per-attribute update policy, the spiral's
//! draw-count clamp, and the instance record the per-particle formulas
//! produce.

use vstd::prelude::*;

use crate::scalar::{Frac, Rational, SCALE};

verus! {

/// The particle modes the application can wire up; the demo's single wired
/// mode.
#[derive(Clone, Copy, Debug, PartialEq, Eq, Structural)]
pub enum Mode {
    Lines,
}

/// Declared instance capacity of the Lines effect.
pub const LINES_PARTICLE_COUNT: u32 = 20000;

/// Declared instance capacity of the Field effect.
pub const FIELD_PARTICLE_COUNT: u32 = 25000;

/// Declared instance capacity of the Spiral effect, shared by its main and
/// shadow halves.
pub const SPIRAL_PARTICLE_COUNT: u32 = 20000;

/// Working count of the Spiral effect: the indices its per-frame loop runs
/// over, half the declared capacity (the other half holds the shadows).
pub const SPIRAL_WORKING_COUNT: u32 = 10000;

/// Bytes per instance record: four 32-bit components.
pub const INSTANCE_STRIDE: u64 = 16;

/// A sampled waveform value lies within one whole: quantised sines and
/// cosines are counts of millionth units in `[-SCALE, SCALE]`.
pub open spec fn unit_trig(v: int) -> bool {
    -SCALE <= v <= SCALE
}

/// Magnitude limit on elapsed-time inputs, in millionth units (about thirty
/// years of wall-clock time).
pub const TIME_MAG: i64 = 1_000_000_000_000_000;

/// The byte size of an instance buffer holding `count` records.
pub fn instance_buffer_size(count: u32) -> (size: u64)
    ensures
        size == 16 * count,
{
    16 * count as u64
}

/// Whether a per-instance attribute is written once and kept, or rewritten
/// every frame.  The coloured effects compute their main colours only on the
/// first update; the spiral's shadow colours are recomputed every frame.
#[derive(Clone, Copy, Debug, PartialEq, Eq, Structural)]
pub enum ColorPolicy {
    /// Computed on the first update and cached from then on.
    Static,
    /// Recomputed on every update.
    Dynamic,
}

/// Whether an attribute under `policy` must be written on an update, given
/// whether this is the effect's first update.
pub fn color_write_due(policy: &ColorPolicy, first_update: bool) -> (due: bool)
    ensures
        due == (policy is Dynamic || first_update),
{
    match policy {
        ColorPolicy::Dynamic => true,
        ColorPolicy::Static => first_update,
    }
}

/// The instance count of the spiral's draw call.  The effect derives it from
/// its working count times four, which overshoots the declared buffer
/// capacity; the count is clamped to the capacity so that the draw never
/// reads an instance the buffers do not hold.
pub fn spiral_draw_instances(working: u32, capacity: u32) -> (count: u32)
    requires
        working <= 1_000_000,
    ensures
        count == if 4 * working <= capacity {
            4 * working as int
        } else {
            capacity as int
        },
{
    let four: u32 = 4 * working;
    if four <= capacity {
        four
    } else {
        capacity
    }
}

/// One per-instance record: a position and the billboard scale, exact.
#[derive(Clone, Copy, Debug)]
pub struct Instance {
    pub x: Rational,
    pub y: Rational,
    pub z: Rational,
    pub scale: Rational,
}

/// The mathematical value of an instance record: four exact fractions.
pub struct InstanceModel {
    pub x: Frac,
    pub y: Frac,
    pub z: Frac,
    pub scale: Frac,
}

impl View for Instance {
    type V = InstanceModel;

    open spec fn view(&self) -> InstanceModel {
        InstanceModel { x: self.x@, y: self.y@, z: self.z@, scale: self.scale@ }
    }
}

impl Instance {
    /// Every component has a positive denominator.
    pub open spec fn wf(self) -> bool {
        self.x.wf() && self.y.wf() && self.z.wf() && self.scale.wf()
    }
}

/// Instance records are deterministic: each effect's builder pins its
/// result to a model that is a function of the particle index and the
/// sampled waveform values alone, so two records built from the same model
/// are identical.
pub proof fn lemma_instance_deterministic(a: Instance, b: Instance, m: InstanceModel)
    requires
        a@ == m,
        b@ == m,
    ensures
        a == b,
{
    assert(a.x == b.x);
    assert(a.y == b.y);
    assert(a.z == b.z);
    assert(a.scale == b.scale);
}

} // verus!
