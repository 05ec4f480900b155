//! The per-tick simulation core of a side-view platformer character: walking
//! with screen wrap, a charged jump with one mid-air bonus jump, gravity, landing
//! on the ground or on a single raised platform, and the choice of pose to show.

use vstd::prelude::*;

pub mod actor;
pub mod color;
pub mod input;
pub mod laws;
pub mod pose;
pub mod world;

verus! {

} // verus!
