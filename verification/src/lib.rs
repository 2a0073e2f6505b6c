//! Recording of immediate-mode drawing calls into an ordered command log, and
//! assembly of the tessellated shapes of that log into one vertex buffer and
//! one index buffer.
//!
//! All quantities are integers. Authored scalars are fixed-point numbers of
//! 32 bits and recorded coordinates have 64 bits, so that no sum of authored
//! values can leave the coordinate range. Tessellation itself is left to the
//! caller: a frame asks for the mesh of one shape after the other.

pub mod color;
pub mod colors;
pub mod constructors;
pub mod render;
pub mod sketch;
pub mod state;
pub mod types;

pub mod prelude;
