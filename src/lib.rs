//! Shape resolution and paint decisions for a document renderer.
//!
//! Coordinates are integer CSS pixels; percentages are whole percents.
//! Floating-point geometry (curves, arcs, affine maps) is left to the caller.
pub mod boxes;
pub mod clip;
pub mod dom;
pub mod events;
pub mod geometry;
pub mod ieee;
pub mod keyboard;
pub mod margin;
pub mod paint;
pub mod path;
pub mod shape;
