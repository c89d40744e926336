//! A renderer core for batches of axis-aligned rectangles.
//!
//! The crate holds the host-side decisions of a small GPU renderer: the
//! settings the device, surface and pipeline are created with, the geometry
//! that a list of rectangles turns into, the bytes that are uploaded for it,
//! and the parameters of the one indexed draw that shows it. Talking to the
//! GPU itself is left to the caller.
//!
//! Every number the GPU reads as a single-precision float is carried here as
//! its IEEE 754 binary32 encoding in a `u32`. Encodings are handed on and
//! negated, which is exact on bits; they are never added. Where a position is
//! moved by an offset, the caller supplies the addition, and the contracts say
//! which position and which offset it is asked for.

pub mod scalar;
pub mod geometry;
pub mod pipeline;
pub mod surface;
pub mod error;
pub mod batch;
pub mod winding;
pub mod layout;
pub mod renderer;
