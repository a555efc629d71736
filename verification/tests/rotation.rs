use celestial::constants::{J2000_JD_MICROS, TURN_ARCSEC_E12};
use celestial::constants::earth_rotation_angle;
use celestial::rotation::{
    icrs_to_ecef_rotation, invert_steps, mci_to_icrs_rotation, nutation_angles_from_trig,
    nutation_rotation_steps, nutation_series, polar_motion_correction,
    precession_between_epochs,
};
use celestial::{Axis, JulianDate, RotationStep, UtcInstant};

/// Radians per 10⁻¹² arcsecond.
const ARCSEC_E12_TO_RAD: f64 = std::f64::consts::PI / (180.0 * 3600.0 * 1e12);

fn step_quaternion(step: &RotationStep) -> nalgebra::UnitQuaternion<f64> {
    let angle = step.angle_arcsec_e12 as f64 * ARCSEC_E12_TO_RAD;
    let axis = match step.axis {
        Axis::X => nalgebra::Vector3::x_axis(),
        Axis::Y => nalgebra::Vector3::y_axis(),
        Axis::Z => nalgebra::Vector3::z_axis(),
    };
    nalgebra::UnitQuaternion::from_axis_angle(&axis, angle)
}

fn steps_quaternion(steps: &[RotationStep]) -> nalgebra::UnitQuaternion<f64> {
    let mut q = nalgebra::UnitQuaternion::identity();
    for step in steps {
        q *= step_quaternion(step);
    }
    q
}

fn sin_of(arcsec_e12: i64) -> i64 {
    ((arcsec_e12 as f64 * ARCSEC_E12_TO_RAD).sin() * 1e18).round() as i64
}

fn cos_of(arcsec_e12: i64) -> i64 {
    ((arcsec_e12 as f64 * ARCSEC_E12_TO_RAD).cos() * 1e18).round() as i64
}

#[test]
fn era_at_j2000_is_approximately_zero() {
    let era = earth_rotation_angle(JulianDate { micros: J2000_JD_MICROS });
    // ERA at J2000.0 is not exactly zero, but within one turn of it.
    let era_rad = era as f64 * ARCSEC_E12_TO_RAD;
    assert!(era_rad.abs() < 2.0 * std::f64::consts::PI);
}

#[test]
fn era_at_j2000_matches_reference() {
    let era = earth_rotation_angle(JulianDate { micros: J2000_JD_MICROS });
    let expected_arcsec = 0.7790572732640_f64 * 1_296_000.0;
    assert!((era as f64 / 1e12 - expected_arcsec).abs() < 1e-6);
    assert!(0 <= era && era < TURN_ARCSEC_E12);
}

#[test]
fn mci_rotation_is_cached() {
    let rot1 = mci_to_icrs_rotation();
    let rot2 = mci_to_icrs_rotation();
    assert_eq!(rot1, rot2);
}

#[test]
fn mci_rotation_uses_lunar_constants() {
    let rot = mci_to_icrs_rotation();
    assert_eq!(rot.len(), 3);
    assert_eq!(rot[0].axis, Axis::Z);
    assert!((rot[0].angle_arcsec_e12 as f64 / 1e12 / 3600.0 - 269.9949).abs() < 1e-9);
    assert_eq!(rot[1].axis, Axis::Y);
    assert!((rot[1].angle_arcsec_e12 as f64 / 1e12 / 3600.0 - 66.5392).abs() < 1e-9);
    assert_eq!(rot[2].axis, Axis::X);
    assert!((rot[2].angle_arcsec_e12 as f64 / 1e12 / 3600.0 - 38.3213).abs() < 1e-9);
}

#[test]
fn nutation_matrix_is_near_identity() {
    let series = nutation_series(JulianDate { micros: J2000_JD_MICROS });
    let (dpsi, deps) = nutation_angles_from_trig(
        sin_of(series.omega_arcsec_e12),
        sin_of(series.two_f_minus_two_d_plus_two_omega_arcsec_e12),
        sin_of(series.two_omega_arcsec_e12),
        sin_of(series.two_f_plus_two_omega_arcsec_e12),
        sin_of(series.l_arcsec_e12),
        cos_of(series.omega_arcsec_e12),
        cos_of(series.two_f_minus_two_d_plus_two_omega_arcsec_e12),
        cos_of(series.two_omega_arcsec_e12),
        cos_of(series.two_f_plus_two_omega_arcsec_e12),
    );
    let nut = steps_quaternion(&nutation_rotation_steps(
        series.mean_obliquity_arcsec_e12,
        dpsi,
        deps,
    ));
    let identity = nalgebra::UnitQuaternion::identity();
    let angle = nut.angle_to(&identity);
    assert!(angle < 0.001);
}

#[test]
fn nutation_components_match_reference() {
    let series = nutation_series(JulianDate { micros: J2000_JD_MICROS });
    let (dpsi, deps) = nutation_angles_from_trig(
        sin_of(series.omega_arcsec_e12),
        sin_of(series.two_f_minus_two_d_plus_two_omega_arcsec_e12),
        sin_of(series.two_omega_arcsec_e12),
        sin_of(series.two_f_plus_two_omega_arcsec_e12),
        sin_of(series.l_arcsec_e12),
        cos_of(series.omega_arcsec_e12),
        cos_of(series.two_f_minus_two_d_plus_two_omega_arcsec_e12),
        cos_of(series.two_omega_arcsec_e12),
        cos_of(series.two_f_plus_two_omega_arcsec_e12),
    );
    let to_rad = |arcsec_e12: i64| arcsec_e12 as f64 * ARCSEC_E12_TO_RAD;
    let dpsi_ref = -17.2064161 * to_rad(series.omega_arcsec_e12).sin()
        - 1.3170907 * to_rad(series.two_f_minus_two_d_plus_two_omega_arcsec_e12).sin()
        - 0.2227794 * to_rad(series.two_omega_arcsec_e12).sin()
        + 0.2072767 * to_rad(series.two_f_plus_two_omega_arcsec_e12).sin()
        - 0.1426572 * to_rad(series.l_arcsec_e12).sin();
    let deps_ref = 9.2052331 * to_rad(series.omega_arcsec_e12).cos()
        + 0.5730336 * to_rad(series.two_f_minus_two_d_plus_two_omega_arcsec_e12).cos()
        + 0.0978459 * to_rad(series.two_omega_arcsec_e12).cos()
        - 0.0897492 * to_rad(series.two_f_plus_two_omega_arcsec_e12).cos();
    assert!((dpsi as f64 / 1e12 - dpsi_ref).abs() < 1e-9);
    assert!((deps as f64 / 1e12 - deps_ref).abs() < 1e-9);
}

#[test]
fn precession_between_same_epoch_is_identity() {
    let jd = JulianDate { micros: J2000_JD_MICROS };
    let prec = precession_between_epochs(jd, jd);
    for step in &prec {
        assert_eq!(step.angle_arcsec_e12, 0);
    }
    let identity = nalgebra::UnitQuaternion::identity();
    let angle = steps_quaternion(&prec).angle_to(&identity);
    assert!(angle < 1e-10);
}

#[test]
fn earth_rotation_drift() {
    // The same inertial point, seen from the rotating Earth a day apart,
    // lands hundreds of kilometres away: a sidereal day is not 24 hours.
    let t0 = UtcInstant { unix_seconds: 1_595_564_818 };
    let t1 = UtcInstant { unix_seconds: 1_595_564_818 + 86_400 };
    let q0 = steps_quaternion(&icrs_to_ecef_rotation(t0));
    let q1 = steps_quaternion(&icrs_to_ecef_rotation(t1));
    let p = nalgebra::Vector3::new(7_000_000.0, 0.0, 0.0);
    let e0 = q0.transform_vector(&p);
    let e1 = q1.transform_vector(&p);
    let separation = (e0 - e1).norm();
    assert!(separation > 100_000.0);
    assert!(separation < 14_000_000.0);
}

#[test]
fn inverting_steps_reverses_and_negates() {
    let steps = mci_to_icrs_rotation();
    let inv = invert_steps(&steps);
    assert_eq!(inv.len(), 3);
    assert_eq!(inv[0].axis, steps[2].axis);
    assert_eq!(inv[0].angle_arcsec_e12, -steps[2].angle_arcsec_e12);
    assert_eq!(inv[2].axis, steps[0].axis);
    assert_eq!(inv[2].angle_arcsec_e12, -steps[0].angle_arcsec_e12);
    // Composing a sequence with its inverse yields the identity rotation.
    let q = steps_quaternion(&steps) * steps_quaternion(&inv);
    assert!(q.angle_to(&nalgebra::UnitQuaternion::identity()) < 1e-12);
}

#[test]
fn polar_motion_correction_is_identity() {
    let steps = polar_motion_correction();
    assert_eq!(steps.len(), 0);
    let q = steps_quaternion(&steps);
    assert_eq!(q, nalgebra::UnitQuaternion::identity());
}

#[test]
fn transform_round_trip_via_inverse_steps() {
    // An ICRS point taken to ECEF and back through the inverted step
    // sequence returns to itself to well below a micrometre.
    let t = UtcInstant { unix_seconds: 1_595_564_818 };
    let steps = icrs_to_ecef_rotation(t);
    let inv = invert_steps(&steps);
    let q = steps_quaternion(&steps);
    let q_inv = steps_quaternion(&inv);
    let p = nalgebra::Vector3::new(7_000_000.0, 0.0, 0.0);
    let round_trip = q_inv.transform_vector(&q.transform_vector(&p));
    assert!((round_trip - p).norm() < 1e-6);
}

#[test]
fn velocity_round_trip_via_inverse_steps() {
    // A velocity rotated into ECEF and back matches itself to a relative
    // error below 1e-9.
    let t = UtcInstant { unix_seconds: 1_595_564_818 };
    let steps = icrs_to_ecef_rotation(t);
    let inv = invert_steps(&steps);
    let q = steps_quaternion(&steps);
    let q_inv = steps_quaternion(&inv);
    let v = nalgebra::Vector3::new(0.0, 7546.0, -1.25);
    let round_trip = q_inv.transform_vector(&q.transform_vector(&v));
    assert!((round_trip - v).norm() < 1e-9 * v.norm());
}
