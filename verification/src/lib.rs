//! An interactive 2D canvas for arranging dropped images: a camera that pans
//! and zooms with cursor-anchored precision, a pipeline that ingests dropped
//! files into positioned visual items, a drag/selection model that moves one
//! or many items together, and an automatic layout pass that repacks all
//! items into a wrapped, centered grid.
//!
//! All continuous quantities (world coordinates, zoom scales, item sizes)
//! are carried as 64-bit fixed-point numbers with a decimal unit of
//! `FX_ONE`, so every computation here is exact integer arithmetic.

pub mod camera;
pub mod collect;
pub mod drag;
pub mod format;
pub mod ingest;
pub mod layout;
pub mod registry;
pub mod units;

pub use units::FX_ONE;
pub use units::Vec2Fx;
