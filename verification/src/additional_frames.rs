//! Additional celestial reference frames.

use vstd::prelude::*;

use crate::frames::{CelestialConvention, CelestialFrame, EquivalentTo, Icrs};

verus! {

/// Geocentric Celestial Reference Frame (GCRF).
///
/// Effectively equivalent to ICRS but explicitly Earth-centred; common in
/// satellite orbit propagation. Coordinates cast between GCRF and ICRS
/// without any numerical change.
#[derive(Clone, Copy, Debug, PartialEq, Eq, Structural)]
pub struct Gcrf;

impl CelestialFrame for Gcrf {
    type Convention = CelestialConvention;
}

/// GCRF is aligned with ICRS by definition.
impl EquivalentTo<Icrs> for Gcrf {

}

/// ICRS is aligned with GCRF by definition.
impl EquivalentTo<Gcrf> for Icrs {

}

/// Earth Mean Equator and Equinox of J2000 (EME2000).
///
/// Uses the Earth's mean equator and equinox at the J2000.0 epoch as its
/// fundamental plane and direction; differs from ICRS only by a small
/// frame bias.
#[derive(Clone, Copy, Debug, PartialEq, Eq, Structural)]
pub struct Eme2000;

impl CelestialFrame for Eme2000 {
    type Convention = CelestialConvention;
}

/// Ecliptic coordinate system.
///
/// Uses the plane of the Earth's orbit around the Sun as its fundamental
/// plane; useful for solar system dynamics.
#[derive(Clone, Copy, Debug, PartialEq, Eq, Structural)]
pub struct Ecliptic;

impl CelestialFrame for Ecliptic {
    type Convention = CelestialConvention;
}

} // verus!
