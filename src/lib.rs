//! First-person camera orientation and an edge-aware, double-buffered input
//! model for an interactive 3D viewer.
//!
//! Angles are held in fixed point (thousandths of a degree) so that the
//! clamping rules on pitch and field of view are exact.
use vstd::prelude::*;

pub mod camera;
pub mod input;

pub use input::ButtonState;

verus! {

} // verus!
