//! Time scale conversions for celestial mechanics.
//!
//! Conversions between the astronomical time scales UTC, TAI, TT, UT1 and
//! TDB. Instants are carried as whole UTC seconds since the Unix epoch, and
//! Julian Dates as whole microseconds of Julian Date, so every conversion
//! here is exact integer arithmetic with an exact contract.

use vstd::prelude::*;

use crate::errors::{CelestialError, CelestialResult};

verus! {

/// A UTC instant, as whole seconds since 1970-01-01T00:00:00 UTC.
#[derive(Clone, Copy, Debug, PartialEq, Eq, Structural)]
pub struct UtcInstant {
    /// Seconds since the Unix epoch (negative before 1970).
    pub unix_seconds: i64,
}

/// A Julian Date, as whole microseconds of Julian Date.
///
/// One Julian Date day is 86 400 000 000 microseconds; Julian Date 0.0 is
/// microsecond 0. The Unix epoch 1970-01-01T00:00:00 is Julian Date
/// 2 440 587.5, that is microsecond 210 866 760 000 000 000.
#[derive(Clone, Copy, Debug, PartialEq, Eq, Structural)]
pub struct JulianDate {
    /// Microseconds of Julian Date.
    pub micros: i64,
}

/// Julian Date of the Unix epoch (2 440 587.5 days), in microseconds.
pub const UNIX_EPOCH_JD_MICROS: i64 = 210_866_760_000_000_000;

/// Largest magnitude of `UtcInstant::unix_seconds` that converts to a
/// `JulianDate` without overflowing its microsecond representation.
pub const MAX_CONVERTIBLE_UNIX_SECONDS: i64 = 9_000_000_000_000;

/// Leap seconds folded into TAI at present (IERS Bulletin C).
pub const CURRENT_LEAP_SECONDS: i64 = 37;

/// TT − TAI, a defined constant of 32.184 s, in microseconds.
pub const TT_MINUS_TAI_MICROS: i64 = 32_184_000;

/// TT − UTC under the leap-second count above, in microseconds.
pub const TT_MINUS_UTC_MICROS: i64 = 69_184_000;

/// Minimum valid epoch year for celestial calculations.
pub const MIN_VALID_YEAR: i64 = 1900;

/// Maximum valid epoch year for celestial calculations.
pub const MAX_VALID_YEAR: i64 = 2100;

/// Julian Date of 1900-01-01T00:00:00 UTC (2 415 020.5 days) in microseconds.
pub const MIN_VALID_JD_MICROS: i64 = 208_657_771_200_000_000;

/// Julian Date of 2100-01-01T00:00:00 UTC (2 488 070.5 days) in microseconds.
pub const MAX_VALID_JD_MICROS: i64 = 214_969_291_200_000_000;

/// Unix seconds of 1900-01-01T00:00:00 UTC.
pub const YEAR_1900_UNIX_SECONDS: i64 = -2_208_988_800;

/// Unix seconds of 2101-01-01T00:00:00 UTC (first instant after year 2100).
pub const YEAR_2101_UNIX_SECONDS: i64 = 4_133_980_800;

/// The Julian Date, in microseconds, of a UTC instant (UTC read as UT1).
pub open spec fn julian_micros_of(unix_seconds: int) -> int {
    unix_seconds * 1_000_000 + UNIX_EPOCH_JD_MICROS
}

/// Leap days of the proleptic Gregorian calendar in years before year `y`.
pub open spec fn leap_days_before(y: int) -> int {
    (y - 1) / 4 - (y - 1) / 100 + (y - 1) / 400
}

/// Days from the Unix epoch to 1 January of year `y`.
pub open spec fn days_before_year(y: int) -> int {
    365 * (y - 1970) + leap_days_before(y) - leap_days_before(1970)
}

/// Unix seconds of 1 January of year `y` at midnight UTC.
pub open spec fn year_start_unix_seconds(y: int) -> int {
    86400 * days_before_year(y)
}

/// The named year-boundary constants agree with the calendar functions.
pub proof fn lemma_year_bounds_are_year_starts()
    ensures
        YEAR_1900_UNIX_SECONDS == year_start_unix_seconds(1900),
        YEAR_2101_UNIX_SECONDS == year_start_unix_seconds(2101),
{
}

/// Validate that an epoch is within the supported range of years
/// 1900 to 2100 inclusive; outside it the precession and nutation
/// polynomials lose their accuracy.
///
/// On failure the error carries the instant together with the Julian Dates
/// of the boundaries 1900-01-01 and 2100-01-01.
pub fn validate_epoch(epoch: UtcInstant) -> (r: CelestialResult<()>)
    ensures
        r is Ok <==> year_start_unix_seconds(MIN_VALID_YEAR as int) <= epoch.unix_seconds
            < year_start_unix_seconds(MAX_VALID_YEAR + 1),
        r is Err ==> r == CelestialResult::<()>::Err(CelestialError::EpochOutOfRange {
            epoch,
            min_jd: JulianDate { micros: MIN_VALID_JD_MICROS },
            max_jd: JulianDate { micros: MAX_VALID_JD_MICROS },
        }),
{
    proof {
        lemma_year_bounds_are_year_starts();
    }
    if epoch.unix_seconds < YEAR_1900_UNIX_SECONDS || epoch.unix_seconds >= YEAR_2101_UNIX_SECONDS {
        Err(CelestialError::EpochOutOfRange {
            epoch,
            min_jd: JulianDate { micros: MIN_VALID_JD_MICROS },
            max_jd: JulianDate { micros: MAX_VALID_JD_MICROS },
        })
    } else {
        Ok(())
    }
}

/// Convert UTC to TAI (International Atomic Time) as a Julian Date.
///
/// TAI = UTC + leap seconds.
pub fn utc_to_tai(utc: UtcInstant) -> (r: JulianDate)
    requires
        -MAX_CONVERTIBLE_UNIX_SECONDS <= utc.unix_seconds <= MAX_CONVERTIBLE_UNIX_SECONDS,
    ensures
        r.micros == julian_micros_of(utc.unix_seconds as int) + CURRENT_LEAP_SECONDS * 1_000_000,
{
    let jd: JulianDate = crate::constants::utc_to_julian_date(utc);
    JulianDate { micros: jd.micros + CURRENT_LEAP_SECONDS * 1_000_000 }
}

/// Convert UTC to TT (Terrestrial Time) as a Julian Date.
///
/// TT = UTC + leap seconds + 32.184 s, so TT always exceeds the plain
/// Julian Date of the instant by exactly 69.184 s.
pub fn utc_to_tt(utc: UtcInstant) -> (r: JulianDate)
    requires
        -MAX_CONVERTIBLE_UNIX_SECONDS <= utc.unix_seconds <= MAX_CONVERTIBLE_UNIX_SECONDS,
    ensures
        r.micros == julian_micros_of(utc.unix_seconds as int) + TT_MINUS_UTC_MICROS,
{
    let jd: JulianDate = crate::constants::utc_to_julian_date(utc);
    JulianDate { micros: jd.micros + TT_MINUS_UTC_MICROS }
}

/// Convert UTC to UT1 (Universal Time) as a Julian Date.
///
/// The UT1−UTC correction is intentionally ignored, so this is the plain
/// Julian Date of the instant.
pub fn utc_to_ut1(utc: UtcInstant) -> (r: JulianDate)
    requires
        -MAX_CONVERTIBLE_UNIX_SECONDS <= utc.unix_seconds <= MAX_CONVERTIBLE_UNIX_SECONDS,
    ensures
        r.micros == julian_micros_of(utc.unix_seconds as int),
{
    crate::constants::utc_to_julian_date(utc)
}

/// Convert TT to UTC (approximate inverse, ignoring the leap-second steps).
pub fn tt_to_utc_approx(tt: JulianDate) -> (r: JulianDate)
    requires
        tt.micros > i64::MIN + TT_MINUS_UTC_MICROS,
    ensures
        r.micros == tt.micros - TT_MINUS_UTC_MICROS,
{
    JulianDate { micros: tt.micros - TT_MINUS_UTC_MICROS }
}

/// Mean anomaly of the Earth's orbit for the TDB periodic term:
/// g = 357.53° + 0.9856003°·(TT − J2000 in days), reduced to [0°, 360°),
/// in ten-millionths of a degree.
pub open spec fn spec_tdb_mean_anomaly_deg_e7(tt_micros: int) -> int {
    (3_575_300_000 + (9_856_003 * (tt_micros - crate::constants::J2000_JD_MICROS))
        / 86_400_000_000) % 3_600_000_000
}

/// Argument of the TDB − TT periodic term at a TT instant: the mean anomaly
/// of the Earth's orbit in ten-millionths of a degree, within [0°, 360°).
pub fn tdb_mean_anomaly_deg_e7(tt: JulianDate) -> (r: i64)
    ensures
        r == spec_tdb_mean_anomaly_deg_e7(tt.micros as int),
        0 <= r < 3_600_000_000,
{
    let d: i128 = tt.micros as i128 - crate::constants::J2000_JD_MICROS as i128;
    let scaled: i128 = crate::math::mul_div_floor(9_856_003, d, 86_400_000_000);
    proof {
        vstd::arithmetic::div_mod::lemma_div_is_ordered(
            -100_000_000_000_000_000_000_000_000,
            9_856_003 * d,
            86_400_000_000,
        );
        vstd::arithmetic::div_mod::lemma_div_is_ordered(
            9_856_003 * d,
            100_000_000_000_000_000_000_000_000,
            86_400_000_000,
        );
    }
    let g: i128 = crate::math::mod_floor_i128(3_575_300_000 + scaled, 3_600_000_000);
    g as i64
}

/// Combine TT with the TDB − TT periodic term
/// 0.001658·sin g + 0.000014·sin 2g seconds (whose magnitude is below
/// 0.001672 s) to yield TDB. Whatever the term's value within that bound,
/// TDB differs from TT by less than 0.002 s.
pub fn tdb_from_tt(tt: JulianDate, periodic_micros: i64) -> (r: JulianDate)
    requires
        -1672 <= periodic_micros <= 1672,
        i64::MIN + 2000 < tt.micros < i64::MAX - 2000,
    ensures
        r.micros == tt.micros + periodic_micros,
        -2000 < r.micros - tt.micros < 2000,
{
    JulianDate { micros: tt.micros + periodic_micros }
}

} // verus!
