//! Verified core of a hexagonal-tile grid editor: axial hex-coordinate math,
//! procedural hex-prism mesh generation, a coordinate-keyed tile registry, and
//! the orbit-camera and hover/selection state machines.
//!
//! Continuous quantities (world positions, camera angles, mesh geometry) are
//! held in signed 64-bit fixed point: one world unit is `fixed::SCALE`
//! sub-units. A rendering host converts to its own floating-point vectors at
//! the boundary; everything on this side is exact integer arithmetic.

use vstd::prelude::*;

pub mod camera;
pub mod coords;
pub mod fixed;
pub mod grid;
pub mod interact;
pub mod mesh;
