use celestial::constants::MU_EARTH;
use celestial::orbital::{kepler_mean_anomaly_e12, kepler_newton_step, mean_motion_rad_e12_per_s};
use celestial::KeplerianElements;

fn trig_e18(v: f64) -> i64 {
    ((v * 1e18).round() as i64).clamp(-1_000_000_000_000_000_000, 1_000_000_000_000_000_000)
}

const SIN0: i64 = 0;
const COS0: i64 = 1_000_000_000_000_000_000;

#[test]
fn circular_orbit_conversion() {
    let elements = KeplerianElements::default();
    let (pos, _vel) = elements.to_state_vectors_from_trig(
        SIN0, COS0, SIN0, COS0, SIN0, COS0, SIN0, COS0,
    );
    // For circular orbit with zero angles, position should be along X axis
    let distance_mm = pos.distance_from_origin();
    assert!((distance_mm as f64 / 1_000_000.0 - 7000.0).abs() < 0.1);
    assert_eq!(pos.to_cartesian().x_mm, 7_000_000_000);
    assert_eq!(pos.to_cartesian().y_mm, 0);
    assert_eq!(pos.to_cartesian().z_mm, 0);
}

#[test]
fn circular_orbit_speed_is_orbital_velocity() {
    let elements = KeplerianElements::default();
    let (_pos, vel) = elements.to_state_vectors_from_trig(
        SIN0, COS0, SIN0, COS0, SIN0, COS0, SIN0, COS0,
    );
    let speed_m_s = ((vel[0] * vel[0] + vel[1] * vel[1] + vel[2] * vel[2]) as f64).sqrt()
        / 1000.0;
    let expected = (MU_EARTH as f64 / 7_000_000.0).sqrt();
    assert!((speed_m_s - expected).abs() < 10.0);
    assert_eq!(vel[0], 0);
    assert_eq!(vel[2], 0);
}

#[test]
fn state_vectors_match_reference() {
    // An ISS-like orbit with every angle non-zero, against the expanded
    // 3-1-3 matrix evaluated in floating point.
    let a_m: f64 = 6_797_000.0;
    let e: f64 = 0.0001473;
    let i: f64 = 51.6461_f64.to_radians();
    let raan: f64 = 339.8014_f64.to_radians();
    let omega: f64 = 94.8340_f64.to_radians();
    let nu: f64 = 40.0_f64.to_radians();
    let elements = KeplerianElements::new(
        a_m as i64,
        (e * 1e8).round() as i64,
        5_164_610_000,
        33_980_140_000,
        9_483_400_000,
        4_000_000_000,
    );
    let (pos, vel) = elements.to_state_vectors_from_trig(
        trig_e18(nu.sin()),
        trig_e18(nu.cos()),
        trig_e18(omega.sin()),
        trig_e18(omega.cos()),
        trig_e18(i.sin()),
        trig_e18(i.cos()),
        trig_e18(raan.sin()),
        trig_e18(raan.cos()),
    );

    let r = a_m * (1.0 - e * e) / (1.0 + e * nu.cos());
    let x_pqw = r * nu.cos();
    let y_pqw = r * nu.sin();
    let p = a_m * (1.0 - e * e);
    let mu = MU_EARTH as f64;
    let vx_pqw = -(mu / p).sqrt() * nu.sin();
    let vy_pqw = (mu / p).sqrt() * (e + nu.cos());
    let (sin_omega, cos_omega) = omega.sin_cos();
    let (sin_i, cos_i) = i.sin_cos();
    let (sin_raan, cos_raan) = raan.sin_cos();
    let x = (cos_raan * cos_omega - sin_raan * sin_omega * cos_i) * x_pqw
        + (-cos_raan * sin_omega - sin_raan * cos_omega * cos_i) * y_pqw;
    let y = (sin_raan * cos_omega + cos_raan * sin_omega * cos_i) * x_pqw
        + (-sin_raan * sin_omega + cos_raan * cos_omega * cos_i) * y_pqw;
    let z = (sin_omega * sin_i) * x_pqw + (cos_omega * sin_i) * y_pqw;
    let vx = (cos_raan * cos_omega - sin_raan * sin_omega * cos_i) * vx_pqw
        + (-cos_raan * sin_omega - sin_raan * cos_omega * cos_i) * vy_pqw;
    let vy = (sin_raan * cos_omega + cos_raan * sin_omega * cos_i) * vx_pqw
        + (-sin_raan * sin_omega + cos_raan * cos_omega * cos_i) * vy_pqw;
    let vz = (sin_omega * sin_i) * vx_pqw + (cos_omega * sin_i) * vy_pqw;

    let parts = pos.to_cartesian();
    assert!((parts.x_mm as f64 / 1000.0 - x).abs() < 0.02);
    assert!((parts.y_mm as f64 / 1000.0 - y).abs() < 0.02);
    assert!((parts.z_mm as f64 / 1000.0 - z).abs() < 0.02);
    assert!((vel[0] as f64 / 1000.0 - vx).abs() < 0.02);
    assert!((vel[1] as f64 / 1000.0 - vy).abs() < 0.02);
    assert!((vel[2] as f64 / 1000.0 - vz).abs() < 0.02);
}

#[test]
fn mean_motion_matches_reference() {
    let n_e12 = mean_motion_rad_e12_per_s(6_797_000, MU_EARTH);
    let n_ref = (MU_EARTH as f64 / 6_797_000.0_f64.powi(3)).sqrt();
    assert!((n_e12 as f64 / 1e12 - n_ref).abs() < 1e-12);
}

#[test]
fn kepler_newton_step_matches_reference() {
    let e: f64 = 0.0001473;
    let e_e8: i64 = 14_730;
    let m: f64 = 1.0;
    let e_anom: f64 = 1.2;
    let stepped = kepler_newton_step(
        (e_anom * 1e12) as i64,
        (m * 1e12) as i64,
        e_e8,
        trig_e18(e_anom.sin()),
        trig_e18(e_anom.cos()),
    );
    let reference = e_anom - (e_anom - e * e_anom.sin() - m) / (1.0 - e * e_anom.cos());
    assert!((stepped as f64 / 1e12 - reference).abs() < 1e-9);
}

#[test]
fn kepler_iteration_solves_the_equation() {
    // Ten Newton iterations from E = M solve E − e·sin E = M, and for a
    // non-circular orbit the solution moves away from the mean anomaly.
    let e_e8: i64 = 5_000_000;  // e = 0.05
    let m_e12: i64 = 1_000_000_000_000;  // M = 1 rad
    let mut e_anom_e12: i64 = m_e12;
    for _ in 0..10 {
        let e_anom = e_anom_e12 as f64 / 1e12;
        e_anom_e12 = kepler_newton_step(
            e_anom_e12,
            m_e12,
            e_e8,
            trig_e18(e_anom.sin()),
            trig_e18(e_anom.cos()),
        );
    }
    let final_e = e_anom_e12 as f64 / 1e12;
    let residual = final_e - 0.05 * final_e.sin() - 1.0;
    assert!(residual.abs() < 1e-9);
    assert!(e_anom_e12 != m_e12);
    let back_m = kepler_mean_anomaly_e12(e_anom_e12, e_e8, trig_e18(final_e.sin()));
    assert!((back_m - m_e12).abs() < 10);
}
