//! A grid of terrain instances, a free-flying camera and the frame state of a
//! small instanced renderer, with every rule stated as a contract.
//!
//! Quantities that a GPU reads as single-precision numbers are held here as
//! integers in a fixed unit, so that each rule is exact: lengths, angles,
//! seconds and dimensionless factors count millionths, grid coordinates and
//! terrain levels count whole cells.

pub mod bytes;
pub mod camera;
pub mod engine;
pub mod fixed;
pub mod instance;
pub mod layout;
pub mod vertices;
