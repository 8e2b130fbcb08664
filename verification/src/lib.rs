//! Gesture-driven creation of axis-aligned boxes from two tracked hands.
//!
//! Bring both index tips together to start defining a box, move the hands to
//! size it, and break a pinch to turn it into a physical cuboid. This crate
//! holds the decisions; drawing, physics and sound belong to the caller,
//! who hands in the poses of each frame and carries out what comes back.
//!
//! Everything is fixed point. Positions are in ticks, a tick being a
//! millionth of a length unit; volumes and playback speeds are in millionths.
//!
//! - [`geometry`]: points, extents, and the box spanned by two points.
//! - [`gesture`]: from poses to pinch and proximity signals and to an event.
//! - [`stage`]: the state machine that the events drive.
//! - [`feedback`]: what a frame asks to be drawn, spawned and played.
//! - [`plugin`]: the pipeline that runs these once per frame.

pub mod feedback;
pub mod geometry;
pub mod gesture;
pub mod plugin;
pub mod stage;

pub use crate::plugin::CubeCreationPlugin;
pub use crate::stage::MakingCube;
