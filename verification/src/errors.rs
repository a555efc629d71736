//! Error types for celestial coordinate operations.

use vstd::prelude::*;

use crate::time_scales::{JulianDate, UtcInstant};

verus! {

use vstd::string::StringExecFns;

/// Errors that can occur during celestial coordinate operations.
#[derive(Clone, Debug, PartialEq)]
pub enum CelestialError {
    /// Requested epoch is outside the valid range for the transformation.
    EpochOutOfRange {
        /// The requested epoch.
        epoch: UtcInstant,
        /// Minimum valid Julian Date.
        min_jd: JulianDate,
        /// Maximum valid Julian Date.
        max_jd: JulianDate,
    },
    /// Time scale conversion failed.
    TimeScaleConversionFailed {
        /// Description of the conversion failure.
        reason: String,
    },
    /// Invalid celestial coordinates or an unparseable element set.
    InvalidCoordinates {
        /// Description of the invalid input.
        reason: String,
    },
    /// Numerical precision issue in a coordinate transformation.
    NumericalPrecisionError {
        /// Description of the precision issue.
        reason: String,
    },
}

impl CelestialError {
    /// A human-readable description of the error.
    pub fn message(&self) -> (r: String)
        ensures
            match self {
                CelestialError::EpochOutOfRange { .. } => r@
                    == "epoch is outside the valid Julian Date range"@,
                CelestialError::TimeScaleConversionFailed { reason } => r@
                    == "time scale conversion failed: "@ + reason@,
                CelestialError::InvalidCoordinates { reason } => r@
                    == "invalid celestial coordinates: "@ + reason@,
                CelestialError::NumericalPrecisionError { reason } => r@
                    == "numerical precision error: "@ + reason@,
            },
    {
        match self {
            CelestialError::EpochOutOfRange { .. } => String::from_str(
                "epoch is outside the valid Julian Date range",
            ),
            CelestialError::TimeScaleConversionFailed { reason } => String::from_str(
                "time scale conversion failed: ",
            ).concat(reason.as_str()),
            CelestialError::InvalidCoordinates { reason } => String::from_str(
                "invalid celestial coordinates: ",
            ).concat(reason.as_str()),
            CelestialError::NumericalPrecisionError { reason } => String::from_str(
                "numerical precision error: ",
            ).concat(reason.as_str()),
        }
    }
}

/// Result type for celestial operations.
pub type CelestialResult<T> = Result<T, CelestialError>;

} // verus!
