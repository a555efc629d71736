//! Astronomical constants and the elementary time and rotation quantities.
//!
//! Constants whose decimal values are exact are carried as integers at a
//! scale named in the constant (`_MM` for millimetres, `_E12` for a value
//! multiplied by 10¹², and so on), so that everything computed from them
//! stays exact.

use vstd::prelude::*;

use crate::time_scales::{julian_micros_of, JulianDate, UtcInstant};

verus! {

/// J2000.0 epoch (Julian Date 2 451 545.0) in microseconds of Julian Date.
pub const J2000_JD_MICROS: i64 = 211_813_488_000_000_000;

/// Days per Julian century.
pub const DAYS_PER_CENTURY: i64 = 36525;

/// Seconds per day.
pub const SECONDS_PER_DAY: i64 = 86400;

/// Microseconds per day.
pub const MICROS_PER_DAY: i64 = 86_400_000_000;

/// Microseconds per Julian century.
pub const MICROS_PER_CENTURY: i64 = 3_155_760_000_000_000;

/// One full turn (360°) in arcseconds, multiplied by 10¹².
pub const TURN_ARCSEC_E12: i64 = 1_296_000_000_000_000_000;

/// Astronomical Unit in meters (IAU 2012 definition).
pub const AU_METERS: u64 = 149_597_870_700;

/// Earth mean radius in millimetres (WGS84, 6 371 008.8 m).
pub const EARTH_RADIUS_MEAN_MM: u64 = 6_371_008_800;

/// Earth equatorial radius in meters (WGS84).
pub const EARTH_RADIUS_EQUATORIAL_METERS: u64 = 6_378_137;

/// Earth polar radius in micrometres (WGS84, 6 356 752.314245 m).
pub const EARTH_RADIUS_POLAR_MICROMETERS: u64 = 6_356_752_314_245;

/// Moon mean radius in meters (IAU/IAG).
pub const MOON_RADIUS_MEAN_METERS: u64 = 1_737_400;

/// Speed of light in vacuum (m/s, exact by definition).
pub const SPEED_OF_LIGHT: u64 = 299_792_458;

/// Earth's rotation rate (7.2921151467·10⁻⁵ rad/s), multiplied by 10¹⁵.
pub const EARTH_ROTATION_RATE_E15: u64 = 72_921_151_467;

/// Gravitational parameter of Earth (m³/s², WGS84): 3.986004418·10¹⁴.
pub const MU_EARTH: u64 = 398_600_441_800_000;

/// Gravitational parameter of the Moon (m³/s²): 4.902800066·10¹².
pub const MU_MOON: u64 = 4_902_800_066_000;

/// IAU 2009 right ascension of the lunar north pole: 269.9949°, in
/// arcseconds multiplied by 10¹².
pub const LUNAR_RA_ARCSEC_E12: i64 = 971_981_640_000_000_000;

/// IAU 2009 declination of the lunar north pole: 66.5392°, in arcseconds
/// multiplied by 10¹².
pub const LUNAR_DEC_ARCSEC_E12: i64 = 239_541_120_000_000_000;

/// IAU 2009 lunar prime meridian angle: 38.3213°, in arcseconds multiplied
/// by 10¹².
pub const LUNAR_W_ARCSEC_E12: i64 = 137_956_680_000_000_000;

/// Convert a UTC instant to a Julian Date.
///
/// The instant's Unix seconds are mapped to `seconds / 86 400 + 2 440 587.5`
/// days exactly; UTC is treated as UT1 (no UT1−UTC correction).
pub fn utc_to_julian_date(utc: UtcInstant) -> (r: JulianDate)
    requires
        -crate::time_scales::MAX_CONVERTIBLE_UNIX_SECONDS <= utc.unix_seconds
            <= crate::time_scales::MAX_CONVERTIBLE_UNIX_SECONDS,
    ensures
        r.micros == julian_micros_of(utc.unix_seconds as int),
{
    JulianDate {
        micros: utc.unix_seconds * 1_000_000 + crate::time_scales::UNIX_EPOCH_JD_MICROS,
    }
}

/// Numerator of the Earth Rotation Angle fraction of a turn, over the fixed
/// denominator 8.64·10²⁶: 0.779 057 273 264 0 plus
/// 1.002 737 811 911 354 6 turns per day since J2000.
pub open spec fn spec_era_numer(jd_micros: int) -> int {
    7_790_572_732_640 * 86_400_000_000_000 + 10_027_378_119_113_546 * (jd_micros
        - J2000_JD_MICROS)
}

/// Denominator of the Earth Rotation Angle fraction of a turn.
pub const ERA_DENOM: i128 = 864_000_000_000_000_000_000_000_000;

/// Earth Rotation Angle as a fraction of a turn multiplied by 10¹⁸.
pub open spec fn spec_era_turn_e18(jd_micros: int) -> int {
    (spec_era_numer(jd_micros) % 864_000_000_000_000_000_000_000_000) / 864_000_000
}

/// Earth Rotation Angle in arcseconds multiplied by 10¹², within
/// [0°, 360°).
pub open spec fn spec_era_arcsec_e12(jd_micros: int) -> int {
    spec_era_turn_e18(jd_micros) * 162 / 125
}

/// Compute the Earth Rotation Angle (ERA) for a given Julian Date, in
/// arcseconds multiplied by 10¹², within [0°, 360°).
///
/// ERA is 2π·frac(0.779 057 273 264 0 + 1.002 737 811 911 354 6·(jd − J2000))
/// radians; the fraction of a turn is computed here exactly and scaled to
/// arcseconds with a quantisation below 10⁻¹² arcsecond.
pub fn earth_rotation_angle(jd: JulianDate) -> (r: i64)
    ensures
        r == spec_era_arcsec_e12(jd.micros as int),
        0 <= r < TURN_ARCSEC_E12,
{
    let d: i128 = jd.micros as i128 - J2000_JD_MICROS as i128;
    let n: i128 = 7_790_572_732_640i128 * 86_400_000_000_000 + 10_027_378_119_113_546 * d;
    let m: i128 = crate::math::mod_floor_i128(n, ERA_DENOM);
    let f_e18: i128 = crate::math::div_floor_i128(m, 864_000_000);
    proof {
        vstd::arithmetic::div_mod::lemma_div_is_ordered(
            m as int,
            ERA_DENOM - 1,
            864_000_000,
        );
        vstd::arithmetic::div_mod::lemma_div_is_ordered(0, m as int, 864_000_000);
    }
    let r: i128 = crate::math::mul_div_floor(f_e18, 162, 125);
    proof {
        vstd::arithmetic::div_mod::lemma_div_is_ordered(
            f_e18 * 162,
            999_999_999_999_999_999int * 162,
            125,
        );
        vstd::arithmetic::div_mod::lemma_div_is_ordered(0, f_e18 * 162, 125);
    }
    r as i64
}

} // verus!
