//! An animated winter scene: a tree with twinkling lights under falling snow.
//!
//! The crate holds the scene model, the rule that advances it on every timer
//! tick, and the transform that fits the fixed design space into a viewport of
//! any size. Coordinates are fixed-point integers (see [`geometry::UNIT`]), so
//! every rule is exact and every contract is stated over integers.

pub mod color;
pub mod geometry;
pub mod light;
pub mod random;
pub mod render;
pub mod scene;
pub mod snow;
pub mod viewport;
