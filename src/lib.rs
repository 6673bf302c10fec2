//! A pixel-exact regression harness for sub-pixel snapping of axis-aligned geometry.
//!
//! The library describes what to draw for each snapping case, what a correct
//! renderer must produce for it, compares a rendered framebuffer against that
//! expectation, and drives the matrix of cases and vertical offsets. Drawing
//! and rasterising are left to the caller.

pub mod catalog;
pub mod expectation;
pub mod geometry;
pub mod laws;
pub mod runner;
pub mod scene;
pub mod validate;

pub use catalog::{snap_tests, variations, SnapTest, SnapVariation};
pub use expectation::Expectation;
pub use geometry::{IntRect, Rgba8};
pub use runner::{RunAction, SnapFailure, SnapRun};
pub use scene::{dl_clear, dl_simple_glyph, dl_simple_rect, DrawItem, SnapTestContext, GLYPH_INDEX};
pub use validate::{validate_output, PixelMismatch};
