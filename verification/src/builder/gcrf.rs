//! Components for building GCRF coordinates.

use vstd::prelude::*;

use crate::frames::CelestialComponents;

verus! {

/// Cartesian components for the GCRF frame, in millimetres.
#[derive(Clone, Copy, Debug, PartialEq, Eq, Structural)]
pub struct Components {
    /// X component (towards the vernal equinox), in millimetres.
    pub x_mm: i64,
    /// Y component (90° east in the equatorial plane), in millimetres.
    pub y_mm: i64,
    /// Z component (towards the North Celestial Pole), in millimetres.
    pub z_mm: i64,
}

impl Components {
    /// The components as frame-independent celestial components.
    pub fn to_celestial(self) -> (r: CelestialComponents)
        ensures
            r == (CelestialComponents { x_mm: self.x_mm, y_mm: self.y_mm, z_mm: self.z_mm }),
    {
        CelestialComponents { x_mm: self.x_mm, y_mm: self.y_mm, z_mm: self.z_mm }
    }
}

} // verus!
