//! Celestial reference frames and astrodynamics, verified.
//!
//! The crate models times, angles and orbital elements as exactly scaled
//! integers, so that the arithmetic of the IAU rotation models, the time-scale
//! conversions and the two-line-element parser can be specified and proved.
//! Rotations are produced as sequences of axis/angle steps with exact scaled
//! angles; evaluating the trigonometry of such a sequence is left to callers.

pub mod additional_frames;
pub mod builder;
pub mod cached;
pub mod constants;
pub mod errors;
pub mod ext;
pub mod frames;
pub mod math;
pub mod orbital;
pub mod rotation;
pub mod time_scales;
pub mod timed;
pub mod tle;

pub use additional_frames::{Ecliptic, Eme2000, Gcrf};
pub use cached::CachedTransform;
pub use errors::{CelestialError, CelestialResult};
pub use ext::{GcrfCoordinateExt, MciCoordinateExt};
pub use frames::{CelestialComponents, CelestialConvention, Coordinate, Icrs, Mci};
pub use rotation::{Axis, RotationStep};
pub use timed::{EphemerisState, TimedCoordinate, VelocityVector};
pub use orbital::KeplerianElements;
pub use tle::TleElements;
pub use time_scales::{
    utc_to_tai, utc_to_tt, utc_to_ut1, validate_epoch, JulianDate, UtcInstant,
};
