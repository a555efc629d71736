//! IAU rotation models as exact axis/angle step sequences.
//!
//! A rotation is described here as a sequence of [`RotationStep`]s, each an
//! elementary rotation about a coordinate axis by an angle in arcseconds
//! scaled by 10¹². A sequence `[s₀, s₁, …, sₙ]` denotes the composition
//! `R(s₀)·R(s₁)·…·R(sₙ)` applied to a column vector, so the *last* step acts
//! first. The angle polynomials of the IAU models are evaluated in fixed
//! point with a quantisation far below a microarcsecond; turning a sequence
//! into a quaternion is trigonometry and is left to callers.

use vstd::prelude::*;

use crate::constants::{
    earth_rotation_angle, spec_era_arcsec_e12, J2000_JD_MICROS, LUNAR_DEC_ARCSEC_E12,
    LUNAR_RA_ARCSEC_E12, LUNAR_W_ARCSEC_E12, MICROS_PER_CENTURY, TURN_ARCSEC_E12,
};
use crate::time_scales::JulianDate;

verus! {

/// A coordinate axis of a right-handed frame.
#[derive(Clone, Copy, Debug, PartialEq, Eq, Structural)]
pub enum Axis {
    /// The x axis.
    X,
    /// The y axis.
    Y,
    /// The z axis.
    Z,
}

/// An elementary rotation about a coordinate axis, by an angle in
/// arcseconds scaled by 10¹² (positive angles rotate counter-clockwise
/// seen from the positive axis).
#[derive(Clone, Copy, Debug, PartialEq, Eq, Structural)]
pub struct RotationStep {
    /// The rotation axis.
    pub axis: Axis,
    /// The rotation angle, in arcseconds scaled by 10¹².
    pub angle_arcsec_e12: i64,
}

/// Largest offset from J2000 the polynomial models accept: one hundred
/// Julian centuries, in microseconds of Julian Date.
pub const MAX_MODEL_OFFSET_MICROS: i64 = 315_576_000_000_000_000;

/// Julian centuries from J2000, scaled by 10¹⁵.
pub open spec fn spec_t_e15(jd_micros: int) -> int {
    (jd_micros - J2000_JD_MICROS) * 1_000_000_000_000_000 / (MICROS_PER_CENTURY as int)
}

/// Square of a scaled time, at the same 10¹⁵ scale.
pub open spec fn spec_sq_e15(t: int) -> int {
    t * t / 1_000_000_000_000_000
}

/// Cube of a scaled time, at the same 10¹⁵ scale.
pub open spec fn spec_cube_e15(t: int) -> int {
    spec_sq_e15(t) * t / 1_000_000_000_000_000
}

/// One term of an angle polynomial: a coefficient in arcseconds scaled by
/// 10⁷ times a power of the scaled time, yielding arcseconds scaled 10¹².
pub open spec fn spec_term_e12(c_e7: int, x_e15: int) -> int {
    c_e7 * x_e15 / 10_000_000_000
}

/// IAU 2006 precession angle ζ for reference epoch offset `t1` and epoch
/// difference `dt` (both Julian centuries scaled by 10¹⁵):
/// 2306.2181·dt + (1.39656 + 0.000139·t1)·dt² + 0.000139·dt³ arcseconds.
pub open spec fn spec_prec_zeta_e12(t1: int, dt: int) -> int {
    spec_term_e12(23_062_181_000, dt) + spec_term_e12(
        13_965_600 + 1_390 * t1 / 1_000_000_000_000_000,
        spec_sq_e15(dt),
    ) + spec_term_e12(1_390, spec_cube_e15(dt))
}

/// IAU 2006 precession angle θ:
/// 2004.3109·dt − (0.42665 + 0.041833·t1)·dt² − 0.041833·dt³ arcseconds.
pub open spec fn spec_prec_theta_e12(t1: int, dt: int) -> int {
    spec_term_e12(20_043_109_000, dt) - spec_term_e12(
        4_266_500 + 418_330 * t1 / 1_000_000_000_000_000,
        spec_sq_e15(dt),
    ) - spec_term_e12(418_330, spec_cube_e15(dt))
}

/// IAU 2006 precession angle z:
/// 2306.2181·dt + (1.09468 + 0.018203·t1)·dt² + 0.018203·dt³ arcseconds.
pub open spec fn spec_prec_z_e12(t1: int, dt: int) -> int {
    spec_term_e12(23_062_181_000, dt) + spec_term_e12(
        10_946_800 + 182_030 * t1 / 1_000_000_000_000_000,
        spec_sq_e15(dt),
    ) + spec_term_e12(182_030, spec_cube_e15(dt))
}

/// Ω, the longitude of the ascending node of the Moon's mean orbit:
/// 125.04455501° − (6 962 890.5431·t + 7.4722·t²) arcseconds, reduced to a
/// turn.
pub open spec fn spec_nut_omega_e12(t: int) -> int {
    (450_160_398_036_000_000 + spec_term_e12(-69_628_905_431_000, t) + spec_term_e12(
        -74_722_000,
        spec_sq_e15(t),
    )) % (TURN_ARCSEC_E12 as int)
}

/// F, the mean longitude of the Moon less Ω:
/// 93.27209062° + (1 739 527 262.8478·t − 12.7512·t²) arcseconds, reduced.
pub open spec fn spec_nut_f_e12(t: int) -> int {
    (335_779_526_232_000_000 + spec_term_e12(17_395_272_628_478_000, t) + spec_term_e12(
        -127_512_000,
        spec_sq_e15(t),
    )) % (TURN_ARCSEC_E12 as int)
}

/// D, the mean elongation of the Moon from the Sun:
/// 297.85019547° + (1 602 961 601.2090·t − 6.3706·t²) arcseconds, reduced.
pub open spec fn spec_nut_d_e12(t: int) -> int {
    (1_072_260_703_692_000_000 + spec_term_e12(16_029_616_012_090_000, t) + spec_term_e12(
        -63_706_000,
        spec_sq_e15(t),
    )) % (TURN_ARCSEC_E12 as int)
}

/// l, the mean anomaly of the Moon:
/// 134.96340251° + (1 717 915 923.2178·t + 31.8792·t²) arcseconds, reduced.
pub open spec fn spec_nut_l_e12(t: int) -> int {
    (485_868_249_036_000_000 + spec_term_e12(17_179_159_232_178_000, t) + spec_term_e12(
        318_792_000,
        spec_sq_e15(t),
    )) % (TURN_ARCSEC_E12 as int)
}

/// Mean obliquity of the ecliptic:
/// 84381.448 − 46.8150·t − 0.00059·t² + 0.001813·t³ arcseconds.
pub open spec fn spec_mean_obliquity_e12(t: int) -> int {
    84_381_448_000_000_000 - spec_term_e12(468_150_000, t) - spec_term_e12(
        5_900,
        spec_sq_e15(t),
    ) + spec_term_e12(18_130, spec_cube_e15(t))
}

/// One term of an angle polynomial, evaluated exactly, with bounds carried
/// for the callers' overflow reasoning.
fn poly_term_e12(c_e7: i64, x_e15: i128, Ghost(cb): Ghost<int>, Ghost(xb): Ghost<int>) -> (r:
    i128)
    requires
        0 <= cb,
        0 <= xb,
        -cb <= c_e7 <= cb,
        -xb <= x_e15 <= xb,
        cb * xb < 40_000_000_000_000_000_000_000_000_000_000_000_000int,
    ensures
        r == spec_term_e12(c_e7 as int, x_e15 as int),
        (-(cb * xb)) / 10_000_000_000 <= r <= cb * xb / 10_000_000_000,
{
    proof {
        assert(-(cb * xb) <= c_e7 as int * x_e15 as int <= cb * xb) by (nonlinear_arith)
            requires
                0 <= cb,
                0 <= xb,
                -cb <= c_e7 as int <= cb,
                -xb <= x_e15 as int <= xb,
        ;
    }
    let r: i128 = crate::math::mul_div_floor(c_e7 as i128, x_e15, 10_000_000_000);
    proof {
        vstd::arithmetic::div_mod::lemma_div_is_ordered(
            -(cb * xb),
            c_e7 as int * x_e15 as int,
            10_000_000_000,
        );
        vstd::arithmetic::div_mod::lemma_div_is_ordered(
            c_e7 as int * x_e15 as int,
            cb * xb,
            10_000_000_000,
        );
    }
    r
}

/// Julian centuries from J2000 for a Julian Date within the model range,
/// scaled by 10¹⁵.
fn centuries_e15(jd: JulianDate) -> (r: i64)
    requires
        -MAX_MODEL_OFFSET_MICROS <= jd.micros - J2000_JD_MICROS <= MAX_MODEL_OFFSET_MICROS,
    ensures
        r == spec_t_e15(jd.micros as int),
        -100_000_000_000_000_000 <= r <= 100_000_000_000_000_000,
{
    let d: i128 = jd.micros as i128 - J2000_JD_MICROS as i128;
    let r: i128 = crate::math::mul_div_floor(d, 1_000_000_000_000_000, MICROS_PER_CENTURY as i128);
    proof {
        vstd::arithmetic::div_mod::lemma_div_is_ordered(
            -315_576_000_000_000_000_000_000_000_000_000int,
            d * 1_000_000_000_000_000,
            MICROS_PER_CENTURY as int,
        );
        vstd::arithmetic::div_mod::lemma_div_is_ordered(
            d * 1_000_000_000_000_000,
            315_576_000_000_000_000_000_000_000_000_000int,
            MICROS_PER_CENTURY as int,
        );
    }
    r as i64
}

/// Square of a scaled time, exactly as the specification's fixed point.
fn sq_e15(t: i64) -> (r: i128)
    requires
        -200_000_000_000_000_000 <= t <= 200_000_000_000_000_000,
    ensures
        r == spec_sq_e15(t as int),
        0 <= r <= 40_000_000_000_000_000_000,
{
    proof {
        assert(0 <= t as int * t as int <= 40_000_000_000_000_000_000_000_000_000_000_000int)
            by (nonlinear_arith)
            requires
                -200_000_000_000_000_000 <= t as int <= 200_000_000_000_000_000,
        ;
    }
    let r: i128 = crate::math::mul_div_floor(t as i128, t as i128, 1_000_000_000_000_000);
    proof {
        vstd::arithmetic::div_mod::lemma_div_is_ordered(
            0,
            t as int * t as int,
            1_000_000_000_000_000,
        );
        vstd::arithmetic::div_mod::lemma_div_is_ordered(
            t as int * t as int,
            40_000_000_000_000_000_000_000_000_000_000_000int,
            1_000_000_000_000_000,
        );
    }
    r
}

/// Cube of a scaled time, exactly as the specification's fixed point.
fn cube_e15(t: i64, t2: i128) -> (r: i128)
    requires
        -200_000_000_000_000_000 <= t <= 200_000_000_000_000_000,
        t2 == spec_sq_e15(t as int),
        0 <= t2 <= 40_000_000_000_000_000_000,
    ensures
        r == spec_cube_e15(t as int),
        -8_000_000_000_000_000_000_000 <= r <= 8_000_000_000_000_000_000_000,
{
    proof {
        assert(-8_000_000_000_000_000_000_000_000_000_000_000_000int <= t2 * t as int
            <= 8_000_000_000_000_000_000_000_000_000_000_000_000int) by (nonlinear_arith)
            requires
                0 <= t2 <= 40_000_000_000_000_000_000i128,
                -200_000_000_000_000_000 <= t as int <= 200_000_000_000_000_000,
        ;
    }
    let r: i128 = crate::math::mul_div_floor(t2, t as i128, 1_000_000_000_000_000);
    proof {
        vstd::arithmetic::div_mod::lemma_div_is_ordered(
            -8_000_000_000_000_000_000_000_000_000_000_000_000int,
            t2 * t as int,
            1_000_000_000_000_000,
        );
        vstd::arithmetic::div_mod::lemma_div_is_ordered(
            t2 * t as int,
            8_000_000_000_000_000_000_000_000_000_000_000_000int,
            1_000_000_000_000_000,
        );
    }
    r
}

/// Between equal epochs the precession polynomials vanish: every term
/// carries a factor of the epoch difference.
pub proof fn lemma_precession_angles_vanish(t1: int)
    ensures
        spec_prec_zeta_e12(t1, 0) == 0,
        spec_prec_theta_e12(t1, 0) == 0,
        spec_prec_z_e12(t1, 0) == 0,
{
    vstd::arithmetic::div_mod::lemma_div_basics(1_000_000_000_000_000);
    assert(spec_sq_e15(0) == 0);
    assert(spec_cube_e15(0) == 0);
    vstd::arithmetic::div_mod::lemma_div_basics(10_000_000_000);
    assert(spec_term_e12(23_062_181_000, 0) == 0);
    assert(spec_term_e12(13_965_600 + 1_390 * t1 / 1_000_000_000_000_000, 0) == 0);
    assert(spec_term_e12(20_043_109_000, 0) == 0);
    assert(spec_term_e12(4_266_500 + 418_330 * t1 / 1_000_000_000_000_000, 0) == 0);
    assert(spec_term_e12(10_946_800 + 182_030 * t1 / 1_000_000_000_000_000, 0) == 0);
    assert(spec_term_e12(1_390, 0) == 0);
    assert(spec_term_e12(418_330, 0) == 0);
    assert(spec_term_e12(182_030, 0) == 0);
}

/// The IAU 2006 precession angles (ζ, θ, z) for a reference epoch offset
/// `t1` and an epoch difference `dt`, in arcseconds scaled by 10¹².
fn precession_angles(t1: i64, dt: i64) -> (r: (i64, i64, i64))
    requires
        -200_000_000_000_000_000 <= t1 <= 200_000_000_000_000_000,
        -200_000_000_000_000_000 <= dt <= 200_000_000_000_000_000,
    ensures
        r.0 == spec_prec_zeta_e12(t1 as int, dt as int),
        r.1 == spec_prec_theta_e12(t1 as int, dt as int),
        r.2 == spec_prec_z_e12(t1 as int, dt as int),
        -2_000_000_000_000_000_000 <= r.0 <= 2_000_000_000_000_000_000,
        -2_000_000_000_000_000_000 <= r.1 <= 2_000_000_000_000_000_000,
        -2_000_000_000_000_000_000 <= r.2 <= 2_000_000_000_000_000_000,
        dt == 0 ==> r.0 == 0 && r.1 == 0 && r.2 == 0,
{
    let t2: i128 = sq_e15(dt);
    let t3: i128 = cube_e15(dt, t2);
    let c_zeta: i128 = crate::math::mul_div_floor(1_390, t1 as i128, 1_000_000_000_000_000);
    let c_theta: i128 = crate::math::mul_div_floor(418_330, t1 as i128, 1_000_000_000_000_000);
    let c_z: i128 = crate::math::mul_div_floor(182_030, t1 as i128, 1_000_000_000_000_000);
    proof {
        vstd::arithmetic::div_mod::lemma_div_is_ordered(
            -83_666_000_000_000_000_000_000_0int,
            1_390 * t1 as int,
            1_000_000_000_000_000,
        );
        vstd::arithmetic::div_mod::lemma_div_is_ordered(
            1_390 * t1 as int,
            83_666_000_000_000_000_000_000_0int,
            1_000_000_000_000_000,
        );
        vstd::arithmetic::div_mod::lemma_div_is_ordered(
            -83_666_000_000_000_000_000_000_0int,
            418_330 * t1 as int,
            1_000_000_000_000_000,
        );
        vstd::arithmetic::div_mod::lemma_div_is_ordered(
            418_330 * t1 as int,
            83_666_000_000_000_000_000_000_0int,
            1_000_000_000_000_000,
        );
        vstd::arithmetic::div_mod::lemma_div_is_ordered(
            -83_666_000_000_000_000_000_000_0int,
            182_030 * t1 as int,
            1_000_000_000_000_000,
        );
        vstd::arithmetic::div_mod::lemma_div_is_ordered(
            182_030 * t1 as int,
            83_666_000_000_000_000_000_000_0int,
            1_000_000_000_000_000,
        );
    }
    let zeta: i128 = poly_term_e12(
        23_062_181_000,
        dt as i128,
        Ghost(23_062_181_000int),
        Ghost(200_000_000_000_000_000int),
    ) + poly_term_e12(
        (13_965_600 + c_zeta as i64),
        t2,
        Ghost(97_631_600int),
        Ghost(40_000_000_000_000_000_000int),
    ) + poly_term_e12(1_390, t3, Ghost(1_390int), Ghost(8_000_000_000_000_000_000_000int));
    let theta: i128 = poly_term_e12(
        20_043_109_000,
        dt as i128,
        Ghost(20_043_109_000int),
        Ghost(200_000_000_000_000_000int),
    ) - poly_term_e12(
        (4_266_500 + c_theta as i64),
        t2,
        Ghost(87_932_500int),
        Ghost(40_000_000_000_000_000_000int),
    ) - poly_term_e12(418_330, t3, Ghost(418_330int), Ghost(8_000_000_000_000_000_000_000int));
    let z: i128 = poly_term_e12(
        23_062_181_000,
        dt as i128,
        Ghost(23_062_181_000int),
        Ghost(200_000_000_000_000_000int),
    ) + poly_term_e12(
        (10_946_800 + c_z as i64),
        t2,
        Ghost(94_612_800int),
        Ghost(40_000_000_000_000_000_000int),
    ) + poly_term_e12(182_030, t3, Ghost(182_030int), Ghost(8_000_000_000_000_000_000_000int));
    proof {
        if dt == 0 {
            lemma_precession_angles_vanish(t1 as int);
        }
    }
    (zeta as i64, theta as i64, z as i64)
}

/// The mean obliquity of the ecliptic at a scaled time, in arcseconds
/// scaled by 10¹².
fn mean_obliquity_e12(t: i64) -> (r: i64)
    requires
        -200_000_000_000_000_000 <= t <= 200_000_000_000_000_000,
    ensures
        r == spec_mean_obliquity_e12(t as int),
        0 < r < 200_000_000_000_000_000,
{
    let t2: i128 = sq_e15(t);
    let t3: i128 = cube_e15(t, t2);
    let r: i128 = 84_381_448_000_000_000 - poly_term_e12(
        468_150_000,
        t as i128,
        Ghost(468_150_000int),
        Ghost(200_000_000_000_000_000int),
    ) - poly_term_e12(5_900, t2, Ghost(5_900int), Ghost(40_000_000_000_000_000_000int))
        + poly_term_e12(18_130, t3, Ghost(18_130int), Ghost(8_000_000_000_000_000_000_000int));
    r as i64
}

/// Compute the precession rotation between two arbitrary epochs, as the
/// step sequence R_z(−ζ)·R_y(θ)·R_z(−z) of the IAU 2006 polynomials taken
/// at the reference epoch offset of `epoch1`.
///
/// Between equal epochs every angle is exactly zero, so the sequence is
/// the identity rotation.
pub fn precession_between_epochs(epoch1: JulianDate, epoch2: JulianDate) -> (r: Vec<
    RotationStep,
>)
    requires
        -MAX_MODEL_OFFSET_MICROS <= epoch1.micros - J2000_JD_MICROS <= MAX_MODEL_OFFSET_MICROS,
        -MAX_MODEL_OFFSET_MICROS <= epoch2.micros - J2000_JD_MICROS <= MAX_MODEL_OFFSET_MICROS,
    ensures
        ({
            let t1 = spec_t_e15(epoch1.micros as int);
            let dt = spec_t_e15(epoch2.micros as int) - spec_t_e15(epoch1.micros as int);
            &&& r@.len() == 3
            &&& r@[0] == (RotationStep {
                axis: Axis::Z,
                angle_arcsec_e12: -spec_prec_zeta_e12(t1, dt) as i64,
            })
            &&& r@[1] == (RotationStep {
                axis: Axis::Y,
                angle_arcsec_e12: spec_prec_theta_e12(t1, dt) as i64,
            })
            &&& r@[2] == (RotationStep {
                axis: Axis::Z,
                angle_arcsec_e12: -spec_prec_z_e12(t1, dt) as i64,
            })
        }),
        epoch1 == epoch2 ==> forall|i: int|
            0 <= i < r@.len() ==> #[trigger] r@[i].angle_arcsec_e12 == 0,
{
    let t1: i64 = centuries_e15(epoch1);
    let t2: i64 = centuries_e15(epoch2);
    let dt: i64 = t2 - t1;
    let angles: (i64, i64, i64) = precession_angles(t1, dt);
    let mut r: Vec<RotationStep> = Vec::new();
    r.push(RotationStep { axis: Axis::Z, angle_arcsec_e12: -angles.0 });
    r.push(RotationStep { axis: Axis::Y, angle_arcsec_e12: angles.1 });
    r.push(RotationStep { axis: Axis::Z, angle_arcsec_e12: -angles.2 });
    r
}

/// The arguments of the five leading IAU 2000B nutation terms at one
/// instant, together with the mean obliquity. Each argument is reduced to
/// [0°, 360°) and carried in arcseconds scaled by 10¹².
///
/// The nutation components pair these arguments with the series
/// coefficients in [`nutation_angles_from_trig`].
#[derive(Clone, Copy, Debug, PartialEq, Eq, Structural)]
pub struct NutationSeries {
    /// Ω, the longitude of the ascending node of the Moon's mean orbit.
    pub omega_arcsec_e12: i64,
    /// 2F − 2D + 2Ω.
    pub two_f_minus_two_d_plus_two_omega_arcsec_e12: i64,
    /// 2Ω.
    pub two_omega_arcsec_e12: i64,
    /// 2F + 2Ω.
    pub two_f_plus_two_omega_arcsec_e12: i64,
    /// l, the mean anomaly of the Moon.
    pub l_arcsec_e12: i64,
    /// ε₀, the mean obliquity of the ecliptic.
    pub mean_obliquity_arcsec_e12: i64,
}

/// 2F − 2D + 2Ω, reduced to a turn.
pub open spec fn spec_nut_arg_ffdo_e12(t: int) -> int {
    (2 * spec_nut_f_e12(t) - 2 * spec_nut_d_e12(t) + 2 * spec_nut_omega_e12(t)) % (
    TURN_ARCSEC_E12 as int)
}

/// 2Ω, reduced to a turn.
pub open spec fn spec_nut_arg_oo_e12(t: int) -> int {
    (2 * spec_nut_omega_e12(t)) % (TURN_ARCSEC_E12 as int)
}

/// 2F + 2Ω, reduced to a turn.
pub open spec fn spec_nut_arg_ffo_e12(t: int) -> int {
    (2 * spec_nut_f_e12(t) + 2 * spec_nut_omega_e12(t)) % (TURN_ARCSEC_E12 as int)
}

/// One fundamental nutation argument: a constant plus linear and quadratic
/// terms in the scaled time, reduced to a turn.
fn nutation_argument(const_e12: i64, c1_e7: i64, c2_e7: i64, t: i64, t2: i128) -> (r: i64)
    requires
        -200_000_000_000_000_000 <= t <= 200_000_000_000_000_000,
        t2 == spec_sq_e15(t as int),
        0 <= t2 <= 40_000_000_000_000_000_000,
        -400_000_000 <= c2_e7 <= 400_000_000,
        0 <= const_e12 <= 2_000_000_000_000_000_000,
    ensures
        r == (const_e12 + spec_term_e12(c1_e7 as int, t as int) + spec_term_e12(
            c2_e7 as int,
            t2 as int,
        )) % (TURN_ARCSEC_E12 as int),
        0 <= r < TURN_ARCSEC_E12,
{
    let lin: i128 = poly_term_e12(
        c1_e7,
        t as i128,
        Ghost(10_000_000_000_000_000_000int),
        Ghost(200_000_000_000_000_000int),
    );
    let quad: i128 = poly_term_e12(
        c2_e7,
        t2,
        Ghost(400_000_000int),
        Ghost(40_000_000_000_000_000_000int),
    );
    let sum: i128 = const_e12 as i128 + lin + quad;
    let r: i128 = crate::math::mod_floor_i128(sum, TURN_ARCSEC_E12 as i128);
    r as i64
}

/// Compute the IAU 2000B five-term nutation arguments and the mean
/// obliquity for a Julian Date.
#[verifier::rlimit(100)]
#[verifier::spinoff_prover]
pub fn nutation_series(jd: JulianDate) -> (r: NutationSeries)
    requires
        -MAX_MODEL_OFFSET_MICROS <= jd.micros - J2000_JD_MICROS <= MAX_MODEL_OFFSET_MICROS,
    ensures
        ({
            let t = spec_t_e15(jd.micros as int);
            &&& r.omega_arcsec_e12 == spec_nut_omega_e12(t)
            &&& r.two_f_minus_two_d_plus_two_omega_arcsec_e12 == spec_nut_arg_ffdo_e12(t)
            &&& r.two_omega_arcsec_e12 == spec_nut_arg_oo_e12(t)
            &&& r.two_f_plus_two_omega_arcsec_e12 == spec_nut_arg_ffo_e12(t)
            &&& r.l_arcsec_e12 == spec_nut_l_e12(t)
            &&& r.mean_obliquity_arcsec_e12 == spec_mean_obliquity_e12(t)
        }),
        0 <= r.omega_arcsec_e12 < TURN_ARCSEC_E12,
        0 <= r.two_f_minus_two_d_plus_two_omega_arcsec_e12 < TURN_ARCSEC_E12,
        0 <= r.two_omega_arcsec_e12 < TURN_ARCSEC_E12,
        0 <= r.two_f_plus_two_omega_arcsec_e12 < TURN_ARCSEC_E12,
        0 <= r.l_arcsec_e12 < TURN_ARCSEC_E12,
{
    let t: i64 = centuries_e15(jd);
    let t2: i128 = sq_e15(t);
    let omega: i64 = nutation_argument(
        450_160_398_036_000_000,
        -69_628_905_431_000,
        -74_722_000,
        t,
        t2,
    );
    let f: i64 = nutation_argument(
        335_779_526_232_000_000,
        17_395_272_628_478_000,
        -127_512_000,
        t,
        t2,
    );
    let d: i64 = nutation_argument(
        1_072_260_703_692_000_000,
        16_029_616_012_090_000,
        -63_706_000,
        t,
        t2,
    );
    let l: i64 = nutation_argument(
        485_868_249_036_000_000,
        17_179_159_232_178_000,
        318_792_000,
        t,
        t2,
    );
    let ffdo: i128 = crate::math::mod_floor_i128(
        2 * f as i128 - 2 * d as i128 + 2 * omega as i128,
        TURN_ARCSEC_E12 as i128,
    );
    let oo: i128 = crate::math::mod_floor_i128(
        2 * omega as i128,
        TURN_ARCSEC_E12 as i128,
    );
    let ffo: i128 = crate::math::mod_floor_i128(
        2 * f as i128 + 2 * omega as i128,
        TURN_ARCSEC_E12 as i128,
    );
    let eps0: i64 = mean_obliquity_e12(t);
    NutationSeries {
        omega_arcsec_e12: omega,
        two_f_minus_two_d_plus_two_omega_arcsec_e12: ffdo as i64,
        two_omega_arcsec_e12: oo as i64,
        two_f_plus_two_omega_arcsec_e12: ffo as i64,
        l_arcsec_e12: l,
        mean_obliquity_arcsec_e12: eps0,
    }
}

/// The IAU 2000B five-term nutation in longitude, from the sines of the
/// arguments of [`NutationSeries`] (each scaled by 10¹⁸):
/// Δψ = −17.2064161·sin Ω − 1.3170907·sin(2F−2D+2Ω) − 0.2227794·sin 2Ω
/// + 0.2072767·sin(2F+2Ω) − 0.1426572·sin l arcseconds.
pub open spec fn spec_nut_dpsi_e12(
    sin_omega_e18: int,
    sin_ffdo_e18: int,
    sin_oo_e18: int,
    sin_ffo_e18: int,
    sin_l_e18: int,
) -> int {
    (-172_064_161 * sin_omega_e18 - 13_170_907 * sin_ffdo_e18 - 2_227_794 * sin_oo_e18
        + 2_072_767 * sin_ffo_e18 - 1_426_572 * sin_l_e18) / 10_000_000_000_000
}

/// The IAU 2000B four-term nutation in obliquity, from the cosines of the
/// arguments (each scaled by 10¹⁸):
/// Δε = 9.2052331·cos Ω + 0.5730336·cos(2F−2D+2Ω) + 0.0978459·cos 2Ω
/// − 0.0897492·cos(2F+2Ω) arcseconds.
pub open spec fn spec_nut_deps_e12(
    cos_omega_e18: int,
    cos_ffdo_e18: int,
    cos_oo_e18: int,
    cos_ffo_e18: int,
) -> int {
    (92_052_331 * cos_omega_e18 + 5_730_336 * cos_ffdo_e18 + 978_459 * cos_oo_e18 - 897_492
        * cos_ffo_e18) / 10_000_000_000_000
}

/// One product of a nutation-series coefficient with a scaled sine or
/// cosine value.
fn trig_term(c_e7: i64, s_e18: i64, Ghost(cb): Ghost<int>) -> (r: i128)
    requires
        0 <= cb <= 200_000_000,
        -cb <= c_e7 <= cb,
        -1_000_000_000_000_000_000 <= s_e18 <= 1_000_000_000_000_000_000,
    ensures
        r == c_e7 as int * s_e18 as int,
        -(cb * 1_000_000_000_000_000_000) <= r <= cb * 1_000_000_000_000_000_000,
{
    proof {
        assert(-(cb * 1_000_000_000_000_000_000) <= c_e7 as int * s_e18 as int <= cb
            * 1_000_000_000_000_000_000) by (nonlinear_arith)
            requires
                0 <= cb,
                -cb <= c_e7 as int <= cb,
                -1_000_000_000_000_000_000 <= s_e18 as int <= 1_000_000_000_000_000_000,
        ;
    }
    (c_e7 as i128) * (s_e18 as i128)
}

/// Combine the sines and cosines of the five nutation arguments (each a
/// value in [−1, 1] scaled by 10¹⁸) into the nutation in longitude Δψ and
/// in obliquity Δε, in arcseconds scaled by 10¹². Whatever values within
/// that range are supplied, |Δψ| stays below 20 arcseconds and |Δε| below
/// 10 arcseconds.
#[verifier::rlimit(80)]
pub fn nutation_angles_from_trig(
    sin_omega_e18: i64,
    sin_ffdo_e18: i64,
    sin_oo_e18: i64,
    sin_ffo_e18: i64,
    sin_l_e18: i64,
    cos_omega_e18: i64,
    cos_ffdo_e18: i64,
    cos_oo_e18: i64,
    cos_ffo_e18: i64,
) -> (r: (i64, i64))
    requires
        -1_000_000_000_000_000_000 <= sin_omega_e18 <= 1_000_000_000_000_000_000,
        -1_000_000_000_000_000_000 <= sin_ffdo_e18 <= 1_000_000_000_000_000_000,
        -1_000_000_000_000_000_000 <= sin_oo_e18 <= 1_000_000_000_000_000_000,
        -1_000_000_000_000_000_000 <= sin_ffo_e18 <= 1_000_000_000_000_000_000,
        -1_000_000_000_000_000_000 <= sin_l_e18 <= 1_000_000_000_000_000_000,
        -1_000_000_000_000_000_000 <= cos_omega_e18 <= 1_000_000_000_000_000_000,
        -1_000_000_000_000_000_000 <= cos_ffdo_e18 <= 1_000_000_000_000_000_000,
        -1_000_000_000_000_000_000 <= cos_oo_e18 <= 1_000_000_000_000_000_000,
        -1_000_000_000_000_000_000 <= cos_ffo_e18 <= 1_000_000_000_000_000_000,
    ensures
        r.0 == spec_nut_dpsi_e12(
            sin_omega_e18 as int,
            sin_ffdo_e18 as int,
            sin_oo_e18 as int,
            sin_ffo_e18 as int,
            sin_l_e18 as int,
        ),
        r.1 == spec_nut_deps_e12(
            cos_omega_e18 as int,
            cos_ffdo_e18 as int,
            cos_oo_e18 as int,
            cos_ffo_e18 as int,
        ),
        -20_000_000_000_000 <= r.0 <= 20_000_000_000_000,
        -10_000_000_000_000 <= r.1 <= 10_000_000_000_000,
{
    let p1: i128 = trig_term(-172_064_161, sin_omega_e18, Ghost(172_064_161int));
    let p2: i128 = trig_term(-13_170_907, sin_ffdo_e18, Ghost(13_170_907int));
    let p3: i128 = trig_term(-2_227_794, sin_oo_e18, Ghost(2_227_794int));
    let p4: i128 = trig_term(2_072_767, sin_ffo_e18, Ghost(2_072_767int));
    let p5: i128 = trig_term(-1_426_572, sin_l_e18, Ghost(1_426_572int));
    let psi_sum: i128 = p1 + p2 + p3 + p4 + p5;
    let q1: i128 = trig_term(92_052_331, cos_omega_e18, Ghost(92_052_331int));
    let q2: i128 = trig_term(5_730_336, cos_ffdo_e18, Ghost(5_730_336int));
    let q3: i128 = trig_term(978_459, cos_oo_e18, Ghost(978_459int));
    let q4: i128 = trig_term(-897_492, cos_ffo_e18, Ghost(897_492int));
    let eps_sum: i128 = q1 + q2 + q3 + q4;
    let dpsi: i128 = crate::math::div_floor_i128(psi_sum, 10_000_000_000_000);
    let deps: i128 = crate::math::div_floor_i128(eps_sum, 10_000_000_000_000);
    proof {
        vstd::arithmetic::div_mod::lemma_div_is_ordered(
            -191_062_101_000_000_000_000_000_000int,
            psi_sum as int,
            10_000_000_000_000,
        );
        vstd::arithmetic::div_mod::lemma_div_is_ordered(
            psi_sum as int,
            191_062_101_000_000_000_000_000_000int,
            10_000_000_000_000,
        );
        vstd::arithmetic::div_mod::lemma_div_is_ordered(
            -99_658_618_000_000_000_000_000_000int,
            eps_sum as int,
            10_000_000_000_000,
        );
        vstd::arithmetic::div_mod::lemma_div_is_ordered(
            eps_sum as int,
            99_658_618_000_000_000_000_000_000int,
            10_000_000_000_000,
        );
    }
    (dpsi as i64, deps as i64)
}

/// The nutation rotation R_x(−(ε₀+Δε))·R_z(−Δψ)·R_x(ε₀) as a step
/// sequence, from the mean obliquity and the two nutation components.
pub fn nutation_rotation_steps(mean_obliquity_e12: i64, dpsi_e12: i64, deps_e12: i64) -> (r:
    Vec<RotationStep>)
    requires
        0 <= mean_obliquity_e12 <= 200_000_000_000_000_000,
        -20_000_000_000_000 <= dpsi_e12 <= 20_000_000_000_000,
        -20_000_000_000_000 <= deps_e12 <= 20_000_000_000_000,
    ensures
        r@.len() == 3,
        r@[0] == (RotationStep {
            axis: Axis::X,
            angle_arcsec_e12: (-(mean_obliquity_e12 + deps_e12)) as i64,
        }),
        r@[1] == (RotationStep { axis: Axis::Z, angle_arcsec_e12: (-dpsi_e12) as i64 }),
        r@[2] == (RotationStep { axis: Axis::X, angle_arcsec_e12: mean_obliquity_e12 }),
{
    let mut r: Vec<RotationStep> = Vec::new();
    r.push(RotationStep { axis: Axis::X, angle_arcsec_e12: -(mean_obliquity_e12 + deps_e12) });
    r.push(RotationStep { axis: Axis::Z, angle_arcsec_e12: -dpsi_e12 });
    r.push(RotationStep { axis: Axis::X, angle_arcsec_e12: mean_obliquity_e12 });
    r
}

/// Compute the ICRS → ECEF rotation at a UTC instant as a step sequence:
/// the Earth Rotation Angle about z, after the optional IAU 2000B nutation
/// rotation, after the IAU 2006 precession R_z(−ζ)·R_y(θ)·R_z(−z).
///
/// When nutation is included, its components Δψ and Δε come from
/// [`nutation_angles_from_trig`] on the instant's [`nutation_series`].
pub fn icrs_to_ecef_rotation_with_nutation(
    time: crate::time_scales::UtcInstant,
    include_nutation: bool,
    dpsi_e12: i64,
    deps_e12: i64,
) -> (r: Vec<RotationStep>)
    requires
        -crate::time_scales::MAX_CONVERTIBLE_UNIX_SECONDS <= time.unix_seconds
            <= crate::time_scales::MAX_CONVERTIBLE_UNIX_SECONDS,
        -MAX_MODEL_OFFSET_MICROS <= crate::time_scales::julian_micros_of(
            time.unix_seconds as int,
        ) - J2000_JD_MICROS <= MAX_MODEL_OFFSET_MICROS,
        -20_000_000_000_000 <= dpsi_e12 <= 20_000_000_000_000,
        -20_000_000_000_000 <= deps_e12 <= 20_000_000_000_000,
    ensures
        ({
            let jd = crate::time_scales::julian_micros_of(time.unix_seconds as int);
            let t = spec_t_e15(jd);
            &&& r@.len() == (if include_nutation {
                7int
            } else {
                4int
            })
            &&& r@[0] == (RotationStep {
                axis: Axis::Z,
                angle_arcsec_e12: spec_era_arcsec_e12(jd) as i64,
            })
            &&& (include_nutation ==> {
                &&& r@[1] == (RotationStep {
                    axis: Axis::X,
                    angle_arcsec_e12: (-(spec_mean_obliquity_e12(t) + deps_e12)) as i64,
                })
                &&& r@[2] == (RotationStep {
                    axis: Axis::Z,
                    angle_arcsec_e12: (-dpsi_e12) as i64,
                })
                &&& r@[3] == (RotationStep {
                    axis: Axis::X,
                    angle_arcsec_e12: spec_mean_obliquity_e12(t) as i64,
                })
            })
            &&& ({
                let base = if include_nutation {
                    4int
                } else {
                    1int
                };
                &&& r@[base] == (RotationStep {
                    axis: Axis::Z,
                    angle_arcsec_e12: -spec_prec_zeta_e12(0, t) as i64,
                })
                &&& r@[base + 1] == (RotationStep {
                    axis: Axis::Y,
                    angle_arcsec_e12: spec_prec_theta_e12(0, t) as i64,
                })
                &&& r@[base + 2] == (RotationStep {
                    axis: Axis::Z,
                    angle_arcsec_e12: -spec_prec_z_e12(0, t) as i64,
                })
            })
        }),
{
    let jd: JulianDate = crate::constants::utc_to_julian_date(time);
    let era: i64 = earth_rotation_angle(jd);
    let t: i64 = centuries_e15(jd);
    let angles: (i64, i64, i64) = precession_angles(0, t);
    let mut r: Vec<RotationStep> = Vec::new();
    r.push(RotationStep { axis: Axis::Z, angle_arcsec_e12: era });
    if include_nutation {
        let eps0: i64 = mean_obliquity_e12(t);
        r.push(RotationStep { axis: Axis::X, angle_arcsec_e12: -(eps0 + deps_e12) });
        r.push(RotationStep { axis: Axis::Z, angle_arcsec_e12: -dpsi_e12 });
        r.push(RotationStep { axis: Axis::X, angle_arcsec_e12: eps0 });
    }
    r.push(RotationStep { axis: Axis::Z, angle_arcsec_e12: -angles.0 });
    r.push(RotationStep { axis: Axis::Y, angle_arcsec_e12: angles.1 });
    r.push(RotationStep { axis: Axis::Z, angle_arcsec_e12: -angles.2 });
    r
}

/// Compute the ICRS → ECEF rotation at a UTC instant, precession and Earth
/// rotation only (nutation off, as in the default model).
pub fn icrs_to_ecef_rotation(time: crate::time_scales::UtcInstant) -> (r: Vec<RotationStep>)
    requires
        -crate::time_scales::MAX_CONVERTIBLE_UNIX_SECONDS <= time.unix_seconds
            <= crate::time_scales::MAX_CONVERTIBLE_UNIX_SECONDS,
        -MAX_MODEL_OFFSET_MICROS <= crate::time_scales::julian_micros_of(
            time.unix_seconds as int,
        ) - J2000_JD_MICROS <= MAX_MODEL_OFFSET_MICROS,
    ensures
        ({
            let jd = crate::time_scales::julian_micros_of(time.unix_seconds as int);
            let t = spec_t_e15(jd);
            &&& r@.len() == 4
            &&& r@[0] == (RotationStep {
                axis: Axis::Z,
                angle_arcsec_e12: spec_era_arcsec_e12(jd) as i64,
            })
            &&& r@[1] == (RotationStep {
                axis: Axis::Z,
                angle_arcsec_e12: -spec_prec_zeta_e12(0, t) as i64,
            })
            &&& r@[2] == (RotationStep {
                axis: Axis::Y,
                angle_arcsec_e12: spec_prec_theta_e12(0, t) as i64,
            })
            &&& r@[3] == (RotationStep {
                axis: Axis::Z,
                angle_arcsec_e12: -spec_prec_z_e12(0, t) as i64,
            })
        }),
{
    icrs_to_ecef_rotation_with_nutation(time, false, 0, 0)
}

/// The MCI → ICRS rotation from the IAU 2009 lunar orientation constants:
/// R_z(α)·R_y(δ)·R_x(W). The constants are fixed, so repeated calls return
/// equal sequences.
pub fn mci_to_icrs_rotation() -> (r: Vec<RotationStep>)
    ensures
        r@.len() == 3,
        r@[0] == (RotationStep { axis: Axis::Z, angle_arcsec_e12: LUNAR_RA_ARCSEC_E12 }),
        r@[1] == (RotationStep { axis: Axis::Y, angle_arcsec_e12: LUNAR_DEC_ARCSEC_E12 }),
        r@[2] == (RotationStep { axis: Axis::X, angle_arcsec_e12: LUNAR_W_ARCSEC_E12 }),
{
    let mut r: Vec<RotationStep> = Vec::new();
    r.push(RotationStep { axis: Axis::Z, angle_arcsec_e12: LUNAR_RA_ARCSEC_E12 });
    r.push(RotationStep { axis: Axis::Y, angle_arcsec_e12: LUNAR_DEC_ARCSEC_E12 });
    r.push(RotationStep { axis: Axis::X, angle_arcsec_e12: LUNAR_W_ARCSEC_E12 });
    r
}

/// The polar-motion correction: the identity rotation, as an empty step
/// sequence (no IERS polar-motion data is folded in).
pub fn polar_motion_correction() -> (r: Vec<RotationStep>)
    ensures
        r@.len() == 0,
{
    Vec::new()
}

/// Invert a step sequence: the inverse rotation runs the steps in reverse
/// order with negated angles.
pub fn invert_steps(steps: &Vec<RotationStep>) -> (r: Vec<RotationStep>)
    requires
        forall|i: int|
            0 <= i < steps@.len() ==> #[trigger] steps@[i].angle_arcsec_e12 > i64::MIN,
    ensures
        r@.len() == steps@.len(),
        forall|i: int|
            0 <= i < r@.len() ==> #[trigger] r@[i] == (RotationStep {
                axis: steps@[steps@.len() - 1 - i].axis,
                angle_arcsec_e12: (-steps@[steps@.len() - 1 - i].angle_arcsec_e12) as i64,
            }),
{
    let n: usize = steps.len();
    let mut r: Vec<RotationStep> = Vec::new();
    let mut k: usize = 0;
    while k < n
        invariant
            n == steps@.len(),
            0 <= k <= n,
            r@.len() == k,
            forall|i: int|
                0 <= i < steps@.len() ==> #[trigger] steps@[i].angle_arcsec_e12 > i64::MIN,
            forall|i: int|
                0 <= i < k ==> #[trigger] r@[i] == (RotationStep {
                    axis: steps@[steps@.len() - 1 - i].axis,
                    angle_arcsec_e12: (-steps@[steps@.len() - 1 - i].angle_arcsec_e12) as i64,
                }),
        decreases n - k,
    {
        let s: RotationStep = steps[n - 1 - k];
        r.push(RotationStep { axis: s.axis, angle_arcsec_e12: -s.angle_arcsec_e12 });
        k = k + 1;
    }
    r
}


} // verus!
