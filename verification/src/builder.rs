//! Builder components for celestial coordinates.
//!
//! Each frame has a `Components` record naming its axes, convertible into
//! the shared [`crate::frames::CelestialComponents`].

pub mod gcrf;
pub mod icrs;
pub mod mci;
