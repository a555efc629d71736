//! Keplerian orbital elements.
//!
//! The six classical elements uniquely define an orbit in the two-body
//! problem. Angles are carried in degrees scaled by 10⁸ and lengths in
//! metres, exactly as produced by the element-set parser.

use vstd::prelude::*;

use crate::constants::MU_EARTH;
use crate::frames::{CelestialComponents, Coordinate, Icrs};
use crate::math::spec_isqrt;

verus! {

/// A product of two values in [−1, 1] scaled by 10¹⁸, at the same scale.
pub open spec fn spec_prod_e18(a_e18: int, b_e18: int) -> int {
    a_e18 * b_e18 / 1_000_000_000_000_000_000
}

/// 1 − e², scaled by 10¹², for an eccentricity scaled by 10⁸.
pub open spec fn spec_one_minus_e_sq_e12(e_e8: int) -> int {
    1_000_000_000_000 - e_e8 * e_e8 / 10_000
}

/// 1 + e·cos ν, scaled by 10¹⁸.
pub open spec fn spec_orbit_denom_e18(e_e8: int, cos_nu_e18: int) -> int {
    1_000_000_000_000_000_000 + e_e8 * cos_nu_e18 / 100_000_000
}

/// The orbital radius r = a(1−e²)/(1+e·cos ν), in millimetres scaled
/// by 10³.
pub open spec fn spec_radius_mm_e3(a_m: int, e_e8: int, cos_nu_e18: int) -> int {
    (a_m * 1000 * spec_one_minus_e_sq_e12(e_e8)) * 1_000_000_000 / spec_orbit_denom_e18(
        e_e8,
        cos_nu_e18,
    )
}

/// Perifocal x = r·cos ν, in millimetres scaled by 10³.
pub open spec fn spec_perifocal_x_mm_e3(a_m: int, e_e8: int, cos_nu_e18: int) -> int {
    spec_radius_mm_e3(a_m, e_e8, cos_nu_e18) * cos_nu_e18 / 1_000_000_000_000_000_000
}

/// Perifocal y = r·sin ν, in millimetres scaled by 10³.
pub open spec fn spec_perifocal_y_mm_e3(
    a_m: int,
    e_e8: int,
    sin_nu_e18: int,
    cos_nu_e18: int,
) -> int {
    spec_radius_mm_e3(a_m, e_e8, cos_nu_e18) * sin_nu_e18 / 1_000_000_000_000_000_000
}

/// Row-x, column-x entry of the 3-1-3 rotation: cos Ω cos ω − sin Ω sin ω cos i.
pub open spec fn spec_mat_xx_e18(sa: int, ca: int, ci: int, sr: int, cr: int) -> int {
    spec_prod_e18(cr, ca) - spec_prod_e18(spec_prod_e18(sr, sa), ci)
}

/// Row-x, column-y entry: −cos Ω sin ω − sin Ω cos ω cos i.
pub open spec fn spec_mat_xy_e18(sa: int, ca: int, ci: int, sr: int, cr: int) -> int {
    -spec_prod_e18(cr, sa) - spec_prod_e18(spec_prod_e18(sr, ca), ci)
}

/// Row-y, column-x entry: sin Ω cos ω + cos Ω sin ω cos i.
pub open spec fn spec_mat_yx_e18(sa: int, ca: int, ci: int, sr: int, cr: int) -> int {
    spec_prod_e18(sr, ca) + spec_prod_e18(spec_prod_e18(cr, sa), ci)
}

/// Row-y, column-y entry: −sin Ω sin ω + cos Ω cos ω cos i.
pub open spec fn spec_mat_yy_e18(sa: int, ca: int, ci: int, sr: int, cr: int) -> int {
    -spec_prod_e18(sr, sa) + spec_prod_e18(spec_prod_e18(cr, ca), ci)
}

/// Row-z, column-x entry: sin ω sin i.
pub open spec fn spec_mat_zx_e18(sa: int, si: int) -> int {
    spec_prod_e18(sa, si)
}

/// Row-z, column-y entry: cos ω sin i.
pub open spec fn spec_mat_zy_e18(ca: int, si: int) -> int {
    spec_prod_e18(ca, si)
}

/// A matrix row applied to the perifocal position (whose z is zero):
/// term-wise floor division back to millimetres.
pub open spec fn spec_combined_mm(m1_e18: int, u_mm_e3: int, m2_e18: int, v_mm_e3: int) -> int {
    m1_e18 * u_mm_e3 / 1_000_000_000_000_000_000_000 + m2_e18 * v_mm_e3
        / 1_000_000_000_000_000_000_000
}

/// A matrix row applied to the perifocal velocity.
pub open spec fn spec_combined_mm_s(m1_e18: int, u_mm_s: int, m2_e18: int, v_mm_s: int) -> int {
    m1_e18 * u_mm_s / 1_000_000_000_000_000_000 + m2_e18 * v_mm_s / 1_000_000_000_000_000_000
}

/// The square of √(μ/p) in (mm/s)², for the semi-latus rectum
/// p = a(1−e²).
pub open spec fn spec_speed_sq_scaled(a_m: int, e_e8: int, mu: int) -> int {
    mu * 1_000_000_000_000_000_000 / (a_m * spec_one_minus_e_sq_e12(e_e8))
}

/// √(μ/p) in millimetres per second (rounded down).
pub open spec fn spec_speed_mm_s(a_m: int, e_e8: int, mu: int) -> int {
    spec_isqrt(spec_speed_sq_scaled(a_m, e_e8, mu))
}

/// Perifocal x velocity −√(μ/p)·sin ν, in millimetres per second.
pub open spec fn spec_perifocal_vx_mm_s(a_m: int, e_e8: int, mu: int, sin_nu_e18: int) -> int {
    spec_speed_mm_s(a_m, e_e8, mu) * (-sin_nu_e18) / 1_000_000_000_000_000_000
}

/// Perifocal y velocity √(μ/p)·(e + cos ν), in millimetres per second.
pub open spec fn spec_perifocal_vy_mm_s(a_m: int, e_e8: int, mu: int, cos_nu_e18: int) -> int {
    spec_speed_mm_s(a_m, e_e8, mu) * (e_e8 * 10_000_000_000 + cos_nu_e18)
        / 1_000_000_000_000_000_000
}

/// Mean motion n = √(μ/a³) in radians per second scaled by 10¹².
pub open spec fn spec_mean_motion_rad_e12(a_m: int, mu: int) -> int {
    spec_isqrt((mu * 1_000_000_000_000_000_000 / (a_m * a_m * a_m)) * 1_000_000)
}

/// The residual of Kepler's equation, E − e·sin E − M, in radians scaled
/// by 10¹².
pub open spec fn spec_kepler_residual_e12(
    e_anom_e12: int,
    mean_anomaly_e12: int,
    e_e8: int,
    sin_e_e18: int,
) -> int {
    e_anom_e12 - e_e8 * sin_e_e18 / 100_000_000_000_000 - mean_anomaly_e12
}

/// The derivative of Kepler's equation, 1 − e·cos E, scaled by 10¹⁸.
pub open spec fn spec_kepler_denom_e18(e_e8: int, cos_e_e18: int) -> int {
    1_000_000_000_000_000_000 - e_e8 * cos_e_e18 / 100_000_000
}

/// One Newton iteration on Kepler's equation:
/// E′ = E − (E − e·sin E − M)/(1 − e·cos E), in radians scaled by 10¹².
pub open spec fn spec_kepler_step_e12(
    e_anom_e12: int,
    mean_anomaly_e12: int,
    e_e8: int,
    sin_e_e18: int,
    cos_e_e18: int,
) -> int {
    e_anom_e12 - spec_kepler_residual_e12(e_anom_e12, mean_anomaly_e12, e_e8, sin_e_e18)
        * 1_000_000_000_000_000_000 / spec_kepler_denom_e18(e_e8, cos_e_e18)
}

/// Mean anomaly from the eccentric anomaly: M = E − e·sin E, in radians
/// scaled by 10¹².
pub open spec fn spec_mean_from_eccentric_e12(e_anom_e12: int, e_e8: int, sin_e_e18: int) -> int {
    e_anom_e12 - e_e8 * sin_e_e18 / 100_000_000_000_000
}

/// Keplerian orbital elements.
///
/// - semi-major axis: size of the orbit;
/// - eccentricity: shape of the orbit (0 circular, below 1 elliptical);
/// - inclination: tilt of the orbital plane against the reference plane;
/// - right ascension of the ascending node;
/// - argument of periapsis;
/// - true anomaly: position in the orbit at the epoch;
/// - gravitational parameter of the attracting body.
#[derive(Clone, Copy, Debug, PartialEq, Eq, Structural)]
pub struct KeplerianElements {
    /// Semi-major axis, in metres.
    pub semi_major_axis_m: i64,
    /// Eccentricity, scaled by 10⁸ (dimensionless).
    pub eccentricity_e8: i64,
    /// Inclination, in degrees scaled by 10⁸.
    pub inclination_deg_e8: i64,
    /// Right ascension of the ascending node, in degrees scaled by 10⁸.
    pub raan_deg_e8: i64,
    /// Argument of periapsis, in degrees scaled by 10⁸.
    pub argument_of_periapsis_deg_e8: i64,
    /// True anomaly, in degrees scaled by 10⁸.
    pub true_anomaly_deg_e8: i64,
    /// Gravitational parameter μ = GM of the attracting body, in m³/s².
    pub mu: u64,
}

impl KeplerianElements {
    /// Whether the elements describe a bound elliptical orbit: positive
    /// semi-major axis, eccentricity in [0, 1), inclination in [0°, 180°].
    pub open spec fn is_physical(&self) -> bool {
        &&& self.semi_major_axis_m > 0
        &&& 0 <= self.eccentricity_e8 < 100_000_000
        &&& 0 <= self.inclination_deg_e8 <= 18_000_000_000
    }

    /// Create a new set of Keplerian elements with Earth's gravitational
    /// parameter.
    pub fn new(
        semi_major_axis_m: i64,
        eccentricity_e8: i64,
        inclination_deg_e8: i64,
        raan_deg_e8: i64,
        argument_of_periapsis_deg_e8: i64,
        true_anomaly_deg_e8: i64,
    ) -> (r: KeplerianElements)
        ensures
            r == (KeplerianElements {
                semi_major_axis_m,
                eccentricity_e8,
                inclination_deg_e8,
                raan_deg_e8,
                argument_of_periapsis_deg_e8,
                true_anomaly_deg_e8,
                mu: MU_EARTH,
            }),
    {
        KeplerianElements {
            semi_major_axis_m,
            eccentricity_e8,
            inclination_deg_e8,
            raan_deg_e8,
            argument_of_periapsis_deg_e8,
            true_anomaly_deg_e8,
            mu: MU_EARTH,
        }
    }

    /// Replace the gravitational parameter, keeping every element.
    pub fn with_mu(self, mu: u64) -> (r: KeplerianElements)
        ensures
            r == (KeplerianElements { mu, ..self }),
    {
        KeplerianElements { mu, ..self }
    }
}

/// A product of two trigonometric values scaled by 10¹⁸, floor-exact.
fn prod_e18(a: i64, b: i64) -> (r: i64)
    requires
        -1_000_000_000_000_000_000 <= a <= 1_000_000_000_000_000_000,
        -1_000_000_000_000_000_000 <= b <= 1_000_000_000_000_000_000,
    ensures
        r == spec_prod_e18(a as int, b as int),
        -1_000_000_000_000_000_000 <= r <= 1_000_000_000_000_000_000,
{
    proof {
        assert(-1_000_000_000_000_000_000_000_000_000_000_000_000int <= (a as int) * (b as int)
            <= 1_000_000_000_000_000_000_000_000_000_000_000_000int) by (nonlinear_arith)
            requires
                -1_000_000_000_000_000_000 <= a as int <= 1_000_000_000_000_000_000,
                -1_000_000_000_000_000_000 <= b as int <= 1_000_000_000_000_000_000,
        ;
    }
    let r: i128 = crate::math::mul_div_floor(a as i128, b as i128, 1_000_000_000_000_000_000);
    proof {
        vstd::arithmetic::div_mod::lemma_div_is_ordered(
            -1_000_000_000_000_000_000_000_000_000_000_000_000int,
            (a as int) * (b as int),
            1_000_000_000_000_000_000,
        );
        vstd::arithmetic::div_mod::lemma_div_is_ordered(
            (a as int) * (b as int),
            1_000_000_000_000_000_000_000_000_000_000_000_000int,
            1_000_000_000_000_000_000,
        );
    }
    r as i64
}

/// A rotation-matrix row applied to the perifocal position, term-wise.
fn combine_mm(m1: i64, u_mm_e3: i128, m2: i64, v_mm_e3: i128) -> (r: i64)
    requires
        -2_000_000_000_000_000_000 <= m1 <= 2_000_000_000_000_000_000,
        -2_000_000_000_000_000_000 <= m2 <= 2_000_000_000_000_000_000,
        -42_000_000_000_000_000_000 <= u_mm_e3 <= 42_000_000_000_000_000_000,
        -42_000_000_000_000_000_000 <= v_mm_e3 <= 42_000_000_000_000_000_000,
    ensures
        r == spec_combined_mm(m1 as int, u_mm_e3 as int, m2 as int, v_mm_e3 as int),
        -200_000_000_000_000_000 <= r <= 200_000_000_000_000_000,
{
    proof {
        assert(-84_000_000_000_000_000_000_000_000_000_000_000_000int <= (m1 as int) * (
        u_mm_e3 as int) <= 84_000_000_000_000_000_000_000_000_000_000_000_000int
            && -84_000_000_000_000_000_000_000_000_000_000_000_000int <= (m2 as int) * (
        v_mm_e3 as int) <= 84_000_000_000_000_000_000_000_000_000_000_000_000int)
            by (nonlinear_arith)
            requires
                -2_000_000_000_000_000_000 <= m1 as int <= 2_000_000_000_000_000_000,
                -2_000_000_000_000_000_000 <= m2 as int <= 2_000_000_000_000_000_000,
                -42_000_000_000_000_000_000 <= u_mm_e3 as int <= 42_000_000_000_000_000_000,
                -42_000_000_000_000_000_000 <= v_mm_e3 as int <= 42_000_000_000_000_000_000,
        ;
    }
    let t1: i128 = crate::math::mul_div_floor(
        m1 as i128,
        u_mm_e3,
        1_000_000_000_000_000_000_000,
    );
    let t2: i128 = crate::math::mul_div_floor(
        m2 as i128,
        v_mm_e3,
        1_000_000_000_000_000_000_000,
    );
    proof {
        crate::math::lemma_div_magnitude_bound(
            (m1 as int) * (u_mm_e3 as int),
            1_000_000_000_000_000_000_000,
            84_000_000_000_000_000_000_000_000_000_000_000_000int,
            1_000_000_000_000_000_000_000,
        );
        crate::math::lemma_div_magnitude_bound(
            (m2 as int) * (v_mm_e3 as int),
            1_000_000_000_000_000_000_000,
            84_000_000_000_000_000_000_000_000_000_000_000_000int,
            1_000_000_000_000_000_000_000,
        );
    }
    (t1 + t2) as i64
}

/// A rotation-matrix row applied to the perifocal velocity, term-wise.
fn combine_mm_s(m1: i64, u_mm_s: i64, m2: i64, v_mm_s: i64) -> (r: i64)
    requires
        -2_000_000_000_000_000_000 <= m1 <= 2_000_000_000_000_000_000,
        -2_000_000_000_000_000_000 <= m2 <= 2_000_000_000_000_000_000,
        -200_000_000_000 <= u_mm_s <= 200_000_000_000,
        -200_000_000_000 <= v_mm_s <= 200_000_000_000,
    ensures
        r == spec_combined_mm_s(m1 as int, u_mm_s as int, m2 as int, v_mm_s as int),
        -1_000_000_000_000 <= r <= 1_000_000_000_000,
{
    proof {
        assert(-400_000_000_000_000_000_000_000_000_000int <= (m1 as int) * (u_mm_s as int)
            <= 400_000_000_000_000_000_000_000_000_000int
            && -400_000_000_000_000_000_000_000_000_000int <= (m2 as int) * (v_mm_s as int)
            <= 400_000_000_000_000_000_000_000_000_000int) by (nonlinear_arith)
            requires
                -2_000_000_000_000_000_000 <= m1 as int <= 2_000_000_000_000_000_000,
                -2_000_000_000_000_000_000 <= m2 as int <= 2_000_000_000_000_000_000,
                -200_000_000_000 <= u_mm_s as int <= 200_000_000_000,
                -200_000_000_000 <= v_mm_s as int <= 200_000_000_000,
        ;
    }
    let t1: i128 = crate::math::mul_div_floor(
        m1 as i128,
        u_mm_s as i128,
        1_000_000_000_000_000_000,
    );
    let t2: i128 = crate::math::mul_div_floor(
        m2 as i128,
        v_mm_s as i128,
        1_000_000_000_000_000_000,
    );
    proof {
        crate::math::lemma_div_magnitude_bound(
            (m1 as int) * (u_mm_s as int),
            1_000_000_000_000_000_000,
            400_000_000_000_000_000_000_000_000_000int,
            1_000_000_000_000_000_000,
        );
        crate::math::lemma_div_magnitude_bound(
            (m2 as int) * (v_mm_s as int),
            1_000_000_000_000_000_000,
            400_000_000_000_000_000_000_000_000_000int,
            1_000_000_000_000_000_000,
        );
    }
    (t1 + t2) as i64
}

impl KeplerianElements {
    /// Convert to position and velocity in the ICRS frame, over the sines
    /// and cosines of the four angles — true anomaly ν, argument of
    /// periapsis ω, inclination i, right ascension of the ascending node
    /// Ω — each in [−1, 1] scaled by 10¹⁸, as the caller evaluates them.
    ///
    /// The perifocal state and the expanded 3-1-3 rotation are computed in
    /// fixed point, exactly as the specification functions say: radius
    /// r = a(1−e²)/(1+e·cos ν), perifocal position (r·cos ν, r·sin ν, 0),
    /// perifocal velocity (−√(μ/p)·sin ν, √(μ/p)·(e+cos ν), 0), and the
    /// matrix rows of R_z(Ω)·R_x(i)·R_z(ω). The position is returned in
    /// millimetres and the velocity in millimetres per second.
    ///
    /// The bounds on the elements are those of the fixed-point
    /// representation: eccentricities up to 0.9, a semi-major axis from
    /// one kilometre to 4·10⁹ km, and a gravitational parameter up to
    /// 10¹⁸ m³/s².
    #[verifier::rlimit(100)]
    #[verifier::spinoff_prover]
    pub fn to_state_vectors_from_trig(
        &self,
        sin_nu_e18: i64,
        cos_nu_e18: i64,
        sin_argp_e18: i64,
        cos_argp_e18: i64,
        sin_i_e18: i64,
        cos_i_e18: i64,
        sin_raan_e18: i64,
        cos_raan_e18: i64,
    ) -> (r: (Coordinate<Icrs>, [i64; 3]))
        requires
            1000 <= self.semi_major_axis_m <= 4_000_000_000_000,
            0 <= self.eccentricity_e8 <= 90_000_000,
            1 <= self.mu <= 1_000_000_000_000_000_000,
            -1_000_000_000_000_000_000 <= sin_nu_e18 <= 1_000_000_000_000_000_000,
            -1_000_000_000_000_000_000 <= cos_nu_e18 <= 1_000_000_000_000_000_000,
            -1_000_000_000_000_000_000 <= sin_argp_e18 <= 1_000_000_000_000_000_000,
            -1_000_000_000_000_000_000 <= cos_argp_e18 <= 1_000_000_000_000_000_000,
            -1_000_000_000_000_000_000 <= sin_i_e18 <= 1_000_000_000_000_000_000,
            -1_000_000_000_000_000_000 <= cos_i_e18 <= 1_000_000_000_000_000_000,
            -1_000_000_000_000_000_000 <= sin_raan_e18 <= 1_000_000_000_000_000_000,
            -1_000_000_000_000_000_000 <= cos_raan_e18 <= 1_000_000_000_000_000_000,
        ensures
            ({
                let a = self.semi_major_axis_m as int;
                let e = self.eccentricity_e8 as int;
                let mu = self.mu as int;
                let xp = spec_perifocal_x_mm_e3(a, e, cos_nu_e18 as int);
                let yp = spec_perifocal_y_mm_e3(a, e, sin_nu_e18 as int, cos_nu_e18 as int);
                let vxp = spec_perifocal_vx_mm_s(a, e, mu, sin_nu_e18 as int);
                let vyp = spec_perifocal_vy_mm_s(a, e, mu, cos_nu_e18 as int);
                let sa = sin_argp_e18 as int;
                let ca = cos_argp_e18 as int;
                let si = sin_i_e18 as int;
                let ci = cos_i_e18 as int;
                let sr = sin_raan_e18 as int;
                let cr = cos_raan_e18 as int;
                &&& r.0.components.x_mm == spec_combined_mm(
                    spec_mat_xx_e18(sa, ca, ci, sr, cr),
                    xp,
                    spec_mat_xy_e18(sa, ca, ci, sr, cr),
                    yp,
                )
                &&& r.0.components.y_mm == spec_combined_mm(
                    spec_mat_yx_e18(sa, ca, ci, sr, cr),
                    xp,
                    spec_mat_yy_e18(sa, ca, ci, sr, cr),
                    yp,
                )
                &&& r.0.components.z_mm == spec_combined_mm(
                    spec_mat_zx_e18(sa, si),
                    xp,
                    spec_mat_zy_e18(ca, si),
                    yp,
                )
                &&& r.0.in_range()
                &&& r.1@.len() == 3
                &&& r.1@[0] == spec_combined_mm_s(
                    spec_mat_xx_e18(sa, ca, ci, sr, cr),
                    vxp,
                    spec_mat_xy_e18(sa, ca, ci, sr, cr),
                    vyp,
                )
                &&& r.1@[1] == spec_combined_mm_s(
                    spec_mat_yx_e18(sa, ca, ci, sr, cr),
                    vxp,
                    spec_mat_yy_e18(sa, ca, ci, sr, cr),
                    vyp,
                )
                &&& r.1@[2] == spec_combined_mm_s(
                    spec_mat_zx_e18(sa, si),
                    vxp,
                    spec_mat_zy_e18(ca, si),
                    vyp,
                )
            }),
    {
        let a_m: i64 = self.semi_major_axis_m;
        let e: i64 = self.eccentricity_e8;
        proof {
            assert(0 <= (e as int) * (e as int) <= 8_100_000_000_000_000int)
                by (nonlinear_arith)
                requires
                    0 <= e as int <= 90_000_000,
            ;
        }
        let e_sq_e16: i64 = e * e;
        let omes_e12: i64 = 1_000_000_000_000 - ((e_sq_e16 as u64) / 10_000) as i64;
        proof {
            assert(omes_e12 == spec_one_minus_e_sq_e12(e as int));
            assert(190_000_000_000 <= omes_e12 <= 1_000_000_000_000);
        }
        proof {
            assert(-90_000_000_000_000_000_000_000_000int <= (e as int) * (cos_nu_e18 as int)
                <= 90_000_000_000_000_000_000_000_000int) by (nonlinear_arith)
                requires
                    0 <= e as int <= 90_000_000,
                    -1_000_000_000_000_000_000 <= cos_nu_e18 as int
                        <= 1_000_000_000_000_000_000,
            ;
        }
        let ecos_e18: i128 = crate::math::mul_div_floor(
            e as i128,
            cos_nu_e18 as i128,
            100_000_000,
        );
        proof {
            crate::math::lemma_div_magnitude_bound(
                (e as int) * (cos_nu_e18 as int),
                100_000_000,
                90_000_000_000_000_000_000_000_000int,
                100_000_000,
            );
        }
        let denom_e18: i128 = 1_000_000_000_000_000_000 + ecos_e18;
        proof {
            assert(99_999_999_999_999_998i128 <= denom_e18 <= 1_900_000_000_000_000_002i128);
        }
        proof {
            assert(0 <= (a_m as int * 1000) * (omes_e12 as int)
                <= 4_000_000_000_000_000_000_000_000_000int) by (nonlinear_arith)
                requires
                    1000 <= a_m as int <= 4_000_000_000_000,
                    0 <= omes_e12 as int <= 1_000_000_000_000,
            ;
        }
        let p_mm_e12: i128 = (a_m as i128 * 1000) * (omes_e12 as i128);
        let r_mm_e3: i128 = crate::math::mul_div_floor(
            p_mm_e12,
            1_000_000_000,
            denom_e18,
        );
        proof {
            crate::math::lemma_div_magnitude_bound(
                (p_mm_e12 as int) * 1_000_000_000,
                denom_e18 as int,
                4_000_000_000_000_000_000_000_000_000_000_000_000int,
                99_999_999_999_999_998int,
            );
            assert(-41_000_000_000_000_000_000i128 <= r_mm_e3 <= 41_000_000_000_000_000_000i128);
        }
        proof {
            assert(-41_000_000_000_000_000_000_000_000_000_000_000_000int <= (r_mm_e3 as int) * (
            cos_nu_e18 as int) <= 41_000_000_000_000_000_000_000_000_000_000_000_000int
                && -41_000_000_000_000_000_000_000_000_000_000_000_000int <= (r_mm_e3 as int) * (
            sin_nu_e18 as int) <= 41_000_000_000_000_000_000_000_000_000_000_000_000int)
                by (nonlinear_arith)
                requires
                    -41_000_000_000_000_000_000 <= r_mm_e3 as int <= 41_000_000_000_000_000_000,
                    -1_000_000_000_000_000_000 <= cos_nu_e18 as int <= 1_000_000_000_000_000_000,
                    -1_000_000_000_000_000_000 <= sin_nu_e18 as int <= 1_000_000_000_000_000_000,
            ;
        }
        let x_p_e3: i128 = crate::math::mul_div_floor(
            r_mm_e3,
            cos_nu_e18 as i128,
            1_000_000_000_000_000_000,
        );
        let y_p_e3: i128 = crate::math::mul_div_floor(
            r_mm_e3,
            sin_nu_e18 as i128,
            1_000_000_000_000_000_000,
        );
        proof {
            crate::math::lemma_div_magnitude_bound(
                (r_mm_e3 as int) * (cos_nu_e18 as int),
                1_000_000_000_000_000_000,
                41_000_000_000_000_000_000_000_000_000_000_000_000int,
                1_000_000_000_000_000_000,
            );
            crate::math::lemma_div_magnitude_bound(
                (r_mm_e3 as int) * (sin_nu_e18 as int),
                1_000_000_000_000_000_000,
                41_000_000_000_000_000_000_000_000_000_000_000_000int,
                1_000_000_000_000_000_000,
            );
        }
        let m_xx: i64 = prod_e18(cos_raan_e18, cos_argp_e18) - prod_e18(
            prod_e18(sin_raan_e18, sin_argp_e18),
            cos_i_e18,
        );
        let m_xy: i64 = -prod_e18(cos_raan_e18, sin_argp_e18) - prod_e18(
            prod_e18(sin_raan_e18, cos_argp_e18),
            cos_i_e18,
        );
        let m_yx: i64 = prod_e18(sin_raan_e18, cos_argp_e18) + prod_e18(
            prod_e18(cos_raan_e18, sin_argp_e18),
            cos_i_e18,
        );
        let m_yy: i64 = -prod_e18(sin_raan_e18, sin_argp_e18) + prod_e18(
            prod_e18(cos_raan_e18, cos_argp_e18),
            cos_i_e18,
        );
        let m_zx: i64 = prod_e18(sin_argp_e18, sin_i_e18);
        let m_zy: i64 = prod_e18(cos_argp_e18, sin_i_e18);
        let x_mm: i64 = combine_mm(m_xx, x_p_e3, m_xy, y_p_e3);
        let y_mm: i64 = combine_mm(m_yx, x_p_e3, m_yy, y_p_e3);
        let z_mm: i64 = combine_mm(m_zx, x_p_e3, m_zy, y_p_e3);
        proof {
            assert(190_000_000_000_000 <= (a_m as int) * (omes_e12 as int)
                <= 4_000_000_000_000_000_000_000_000int) by (nonlinear_arith)
                requires
                    1000 <= a_m as int <= 4_000_000_000_000,
                    190_000_000_000 <= omes_e12 as int <= 1_000_000_000_000,
            ;
        }
        let p_m_e12: i128 = (a_m as i128) * (omes_e12 as i128);
        let q: i128 = crate::math::mul_div_floor(
            self.mu as i128,
            1_000_000_000_000_000_000,
            p_m_e12,
        );
        proof {
            crate::math::lemma_div_magnitude_bound(
                (self.mu as int) * 1_000_000_000_000_000_000,
                p_m_e12 as int,
                1_000_000_000_000_000_000_000_000_000_000_000_000int,
                190_000_000_000_000int,
            );
            vstd::arithmetic::div_mod::lemma_div_basics(p_m_e12 as int);
            vstd::arithmetic::div_mod::lemma_div_is_ordered(
                0,
                (self.mu as int) * 1_000_000_000_000_000_000,
                p_m_e12 as int,
            );
        }
        let vcoef: u64 = crate::math::isqrt_u128(q as u128);
        proof {
            assert(vcoef < 80_000_000_000u64) by (nonlinear_arith)
                requires
                    (vcoef as int) * (vcoef as int) <= 5_300_000_000_000_000_000_000int,
            ;
            crate::math::lemma_isqrt_unique(q as int, vcoef as int);
        }
        let e_plus_cos_e18: i128 = (e as i128) * 10_000_000_000 + cos_nu_e18 as i128;
        proof {
            assert(-80_000_000_000_000_000_000_000_000_000int <= (vcoef as int) * (-(
            sin_nu_e18 as int)) <= 80_000_000_000_000_000_000_000_000_000int
                && -160_000_000_000_000_000_000_000_000_000int <= (vcoef as int) * (
            e_plus_cos_e18 as int) <= 160_000_000_000_000_000_000_000_000_000int)
                by (nonlinear_arith)
                requires
                    0 <= vcoef as int <= 80_000_000_000,
                    -1_000_000_000_000_000_000 <= sin_nu_e18 as int <= 1_000_000_000_000_000_000,
                    -1_000_000_000_000_000_000 <= e_plus_cos_e18 as int
                        <= 2_000_000_000_000_000_000,
            ;
        }
        let vx_p: i128 = crate::math::mul_div_floor(
            vcoef as i128,
            -(sin_nu_e18 as i128),
            1_000_000_000_000_000_000,
        );
        let vy_p: i128 = crate::math::mul_div_floor(
            vcoef as i128,
            e_plus_cos_e18,
            1_000_000_000_000_000_000,
        );
        proof {
            crate::math::lemma_div_magnitude_bound(
                (vcoef as int) * (-(sin_nu_e18 as int)),
                1_000_000_000_000_000_000,
                80_000_000_000_000_000_000_000_000_000int,
                1_000_000_000_000_000_000,
            );
            crate::math::lemma_div_magnitude_bound(
                (vcoef as int) * (e_plus_cos_e18 as int),
                1_000_000_000_000_000_000,
                160_000_000_000_000_000_000_000_000_000int,
                1_000_000_000_000_000_000,
            );
        }
        let vx_mm_s: i64 = combine_mm_s(m_xx, vx_p as i64, m_xy, vy_p as i64);
        let vy_mm_s: i64 = combine_mm_s(m_yx, vx_p as i64, m_yy, vy_p as i64);
        let vz_mm_s: i64 = combine_mm_s(m_zx, vx_p as i64, m_zy, vy_p as i64);
        let velocity: [i64; 3] = [vx_mm_s, vy_mm_s, vz_mm_s];
        proof {
            assert(velocity@ =~= seq![vx_mm_s, vy_mm_s, vz_mm_s]);
        }
        (
            Coordinate::<Icrs>::build(CelestialComponents { x_mm, y_mm, z_mm }),
            velocity,
        )
    }
}

/// The mean motion n = √(μ/a³) of an orbit, in radians per second scaled
/// by 10¹² (rounded down).
pub fn mean_motion_rad_e12_per_s(a_m: i64, mu: u64) -> (r: u64)
    requires
        1000 <= a_m <= 4_000_000_000_000,
        1 <= mu <= 1_000_000_000_000_000_000,
    ensures
        r == spec_mean_motion_rad_e12(a_m as int, mu as int),
        r <= 40_000_000_000_000_000,
{
    proof {
        assert(1_000_000_000int <= (a_m as int * a_m as int) * (a_m as int)
            <= 64_000_000_000_000_000_000_000_000_000_000_000_000int
            && 1_000_000int <= a_m as int * a_m as int
            <= 16_000_000_000_000_000_000_000_000int) by (nonlinear_arith)
            requires
                1000 <= a_m as int <= 4_000_000_000_000,
        ;
    }
    let a3: i128 = (a_m as i128 * a_m as i128) * a_m as i128;
    let q: i128 = crate::math::mul_div_floor(mu as i128, 1_000_000_000_000_000_000, a3);
    proof {
        crate::math::lemma_div_magnitude_bound(
            (mu as int) * 1_000_000_000_000_000_000,
            a3 as int,
            1_000_000_000_000_000_000_000_000_000_000_000_000int,
            1_000_000_000int,
        );
        vstd::arithmetic::div_mod::lemma_div_basics(a3 as int);
        vstd::arithmetic::div_mod::lemma_div_is_ordered(
            0,
            (mu as int) * 1_000_000_000_000_000_000,
            a3 as int,
        );
    }
    let x: i128 = q * 1_000_000;
    let n: u64 = crate::math::isqrt_u128(x as u128);
    proof {
        crate::math::lemma_isqrt_unique(x as int, n as int);
        assert(n <= 40_000_000_000_000_000u64) by (nonlinear_arith)
            requires
                (n as int) * (n as int) <= 1_100_000_000_000_000_000_000_000_000_000_000int,
        ;
    }
    n
}

/// One Newton iteration on Kepler's equation
/// E′ = E − (E − e·sin E − M)/(1 − e·cos E), over the sine and cosine of
/// the current eccentric anomaly E (each in [−1, 1] scaled by 10¹⁸), with
/// the anomalies in radians scaled by 10¹².
///
/// The anomalies must lie within ±1000 radians (the caller reduces them
/// into a turn first) and the eccentricity within the fixed-point range
/// of 0.9, which keeps the derivative 1 − e·cos E away from zero.
pub fn kepler_newton_step(
    e_anom_e12: i64,
    mean_anomaly_e12: i64,
    e_e8: i64,
    sin_e_e18: i64,
    cos_e_e18: i64,
) -> (r: i64)
    requires
        -1_000_000_000_000_000 <= e_anom_e12 <= 1_000_000_000_000_000,
        -1_000_000_000_000_000 <= mean_anomaly_e12 <= 1_000_000_000_000_000,
        0 <= e_e8 <= 90_000_000,
        -1_000_000_000_000_000_000 <= sin_e_e18 <= 1_000_000_000_000_000_000,
        -1_000_000_000_000_000_000 <= cos_e_e18 <= 1_000_000_000_000_000_000,
    ensures
        r == spec_kepler_step_e12(
            e_anom_e12 as int,
            mean_anomaly_e12 as int,
            e_e8 as int,
            sin_e_e18 as int,
            cos_e_e18 as int,
        ),
        -25_000_000_000_000_000 <= r <= 25_000_000_000_000_000,
{
    proof {
        assert(-90_000_000_000_000_000_000_000_000int <= (e_e8 as int) * (sin_e_e18 as int)
            <= 90_000_000_000_000_000_000_000_000int && -90_000_000_000_000_000_000_000_000int
            <= (e_e8 as int) * (cos_e_e18 as int) <= 90_000_000_000_000_000_000_000_000int)
            by (nonlinear_arith)
            requires
                0 <= e_e8 as int <= 90_000_000,
                -1_000_000_000_000_000_000 <= sin_e_e18 as int <= 1_000_000_000_000_000_000,
                -1_000_000_000_000_000_000 <= cos_e_e18 as int <= 1_000_000_000_000_000_000,
        ;
    }
    let esin_e12: i128 = crate::math::mul_div_floor(
        e_e8 as i128,
        sin_e_e18 as i128,
        100_000_000_000_000,
    );
    let ecos_e18: i128 = crate::math::mul_div_floor(
        e_e8 as i128,
        cos_e_e18 as i128,
        100_000_000,
    );
    proof {
        crate::math::lemma_div_magnitude_bound(
            (e_e8 as int) * (sin_e_e18 as int),
            100_000_000_000_000,
            90_000_000_000_000_000_000_000_000int,
            100_000_000_000_000,
        );
        crate::math::lemma_div_magnitude_bound(
            (e_e8 as int) * (cos_e_e18 as int),
            100_000_000,
            90_000_000_000_000_000_000_000_000int,
            100_000_000,
        );
    }
    let residual_e12: i128 = e_anom_e12 as i128 - esin_e12 - mean_anomaly_e12 as i128;
    let denom_e18: i128 = 1_000_000_000_000_000_000 - ecos_e18;
    let correction_e12: i128 = crate::math::mul_div_floor(
        residual_e12,
        1_000_000_000_000_000_000,
        denom_e18,
    );
    proof {
        crate::math::lemma_div_magnitude_bound(
            (residual_e12 as int) * 1_000_000_000_000_000_000,
            denom_e18 as int,
            2_100_000_000_000_000_000_000_000_000_000_000int,
            99_999_999_999_999_998int,
        );
    }
    (e_anom_e12 as i128 - correction_e12) as i64
}

/// The mean anomaly from the eccentric anomaly, M = E − e·sin E, over the
/// sine of E in [−1, 1] scaled by 10¹⁸, with anomalies in radians scaled
/// by 10¹².
pub fn kepler_mean_anomaly_e12(e_anom_e12: i64, e_e8: i64, sin_e_e18: i64) -> (r: i64)
    requires
        -1_000_000_000_000_000 <= e_anom_e12 <= 1_000_000_000_000_000,
        0 <= e_e8 <= 90_000_000,
        -1_000_000_000_000_000_000 <= sin_e_e18 <= 1_000_000_000_000_000_000,
    ensures
        r == spec_mean_from_eccentric_e12(e_anom_e12 as int, e_e8 as int, sin_e_e18 as int),
        -1_001_000_000_000_000 <= r <= 1_001_000_000_000_000,
{
    proof {
        assert(-90_000_000_000_000_000_000_000_000int <= (e_e8 as int) * (sin_e_e18 as int)
            <= 90_000_000_000_000_000_000_000_000int) by (nonlinear_arith)
            requires
                0 <= e_e8 as int <= 90_000_000,
                -1_000_000_000_000_000_000 <= sin_e_e18 as int <= 1_000_000_000_000_000_000,
        ;
    }
    let esin_e12: i128 = crate::math::mul_div_floor(
        e_e8 as i128,
        sin_e_e18 as i128,
        100_000_000_000_000,
    );
    proof {
        crate::math::lemma_div_magnitude_bound(
            (e_e8 as int) * (sin_e_e18 as int),
            100_000_000_000_000,
            90_000_000_000_000_000_000_000_000int,
            100_000_000_000_000,
        );
    }
    (e_anom_e12 as i128 - esin_e12) as i64
}

impl Default for KeplerianElements {
    /// A circular equatorial orbit of 7 000 km semi-major axis about Earth.
    fn default() -> (r: KeplerianElements)
        ensures
            r == (KeplerianElements {
                semi_major_axis_m: 7_000_000,
                eccentricity_e8: 0,
                inclination_deg_e8: 0,
                raan_deg_e8: 0,
                argument_of_periapsis_deg_e8: 0,
                true_anomaly_deg_e8: 0,
                mu: MU_EARTH,
            }),
    {
        KeplerianElements {
            semi_major_axis_m: 7_000_000,
            eccentricity_e8: 0,
            inclination_deg_e8: 0,
            raan_deg_e8: 0,
            argument_of_periapsis_deg_e8: 0,
            true_anomaly_deg_e8: 0,
            mu: MU_EARTH,
        }
    }
}

} // verus!
