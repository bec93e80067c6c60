//! Exact-arithmetic core of a small real-time particle demo.
//!
//! The demo draws a procedurally animated background and a field of
//! billboarded sprite particles in a window, driven by mouse input and
//! wall-clock time.  The window, the GPU device and the decoded texture are
//! unverifiable I/O and live in the unverified shell around this crate; what
//! this library holds is the mathematics that drives every frame:
//!
//! * scalars as exact rationals ([`scalar`]), with inputs quantised to
//!   millionth units,
//! * the piecewise-linear colour ramp ([`ramp`]),
//! * the drag-to-pan input tracker ([`input`]),
//! * the camera position and its derivation from the mouse ([`camera`]),
//! * the mip-chain size of an uploaded texture ([`image`]),
//! * the per-instance particle formulas of the three effects
//!   ([`fx_lines`], [`fx_field`], [`fx_spiral`]) and their shared buffer
//!   bookkeeping ([`particles`]).
//!
//! Every function states exactly what it returns; the shell only samples
//! trigonometric waveforms, converts to and from floating point at the
//! boundary, and hands values to the GPU.

pub mod camera;
pub mod fx_field;
pub mod fx_lines;
pub mod fx_spiral;
pub mod image;
pub mod input;
pub mod particles;
pub mod ramp;
pub mod scalar;
