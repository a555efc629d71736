//! Extension traits for building frame-tagged coordinates.
//!
//! The constructors are also available as the inherent
//! [`Coordinate::build`]; these traits name the per-frame entry points.

use vstd::prelude::*;

use crate::additional_frames::Gcrf;
use crate::frames::{CelestialComponents, Coordinate, Mci};

verus! {

/// Extension methods for MCI coordinates.
pub trait MciCoordinateExt: Sized {
    /// Build an MCI coordinate from Cartesian components.
    fn build(components: CelestialComponents) -> Self;
}

impl MciCoordinateExt for Coordinate<Mci> {
    fn build(components: CelestialComponents) -> Self {
        Coordinate::<Mci>::build(components)
    }
}

/// Extension methods for GCRF coordinates.
pub trait GcrfCoordinateExt: Sized {
    /// Build a GCRF coordinate from Cartesian components.
    fn build(components: CelestialComponents) -> Self;
}

impl GcrfCoordinateExt for Coordinate<Gcrf> {
    fn build(components: CelestialComponents) -> Self {
        Coordinate::<Gcrf>::build(components)
    }
}

} // verus!
