use celestial::builder;
use celestial::constants::{
    AU_METERS, EARTH_RADIUS_MEAN_MM, MU_EARTH, SPEED_OF_LIGHT,
};
use celestial::{
    CachedTransform, CelestialComponents, Coordinate, Ecliptic, Eme2000, EphemerisState, Gcrf,
    GcrfCoordinateExt, Icrs, KeplerianElements, Mci, MciCoordinateExt, TimedCoordinate,
    UtcInstant, VelocityVector,
};

#[test]
fn astronomical_constants_are_reasonable() {
    assert!(AU_METERS as f64 > 1e11 && (AU_METERS as f64) < 2e11);
    let earth_radius_m = EARTH_RADIUS_MEAN_MM as f64 / 1000.0;
    assert!(earth_radius_m > 6e6 && earth_radius_m < 7e6);
    assert!(SPEED_OF_LIGHT as f64 > 2.99e8 && (SPEED_OF_LIGHT as f64) < 3e8);
}

#[test]
fn gcrf_implements_coordinate_system() {
    // Verify that the frame can tag a coordinate (it carries the celestial
    // convention).
    let c = Coordinate::<Gcrf>::build(CelestialComponents { x_mm: 1, y_mm: 2, z_mm: 3 });
    assert_eq!(c.to_cartesian().x_mm, 1);
}

#[test]
fn eme2000_implements_coordinate_system() {
    let c = Coordinate::<Eme2000>::build(CelestialComponents { x_mm: 1, y_mm: 2, z_mm: 3 });
    assert_eq!(c.to_cartesian().y_mm, 2);
}

#[test]
fn ecliptic_implements_coordinate_system() {
    let c = Coordinate::<Ecliptic>::build(CelestialComponents { x_mm: 1, y_mm: 2, z_mm: 3 });
    assert_eq!(c.to_cartesian().z_mm, 3);
}

#[test]
fn gcrf_casts_to_icrs_without_change() {
    let c = Coordinate::<Gcrf>::build(CelestialComponents {
        x_mm: 7_000_000_000,
        y_mm: -42,
        z_mm: 123,
    });
    let i: Coordinate<Icrs> = c.cast();
    assert_eq!(i.to_cartesian(), c.to_cartesian());
    let back: Coordinate<Gcrf> = i.cast();
    assert_eq!(back.to_cartesian(), c.to_cartesian());
}

#[test]
fn distance_from_origin_is_euclidean() {
    let c = Coordinate::<Icrs>::build(CelestialComponents { x_mm: 3, y_mm: 4, z_mm: 0 });
    assert_eq!(c.distance_from_origin(), 5);
    let d = Coordinate::<Icrs>::build(CelestialComponents { x_mm: 2, y_mm: 3, z_mm: 6 });
    assert_eq!(d.distance_from_origin(), 7);
}

#[test]
fn distance_from_other_point() {
    let a = Coordinate::<Icrs>::build(CelestialComponents { x_mm: 10, y_mm: 0, z_mm: 0 });
    let b = Coordinate::<Icrs>::build(CelestialComponents { x_mm: 7, y_mm: -4, z_mm: 0 });
    assert_eq!(a.distance_from(&b), 5);
}

#[test]
fn component_arrays_round_trip() {
    let c = CelestialComponents { x_mm: -1, y_mm: 2, z_mm: -3 };
    let arr = c.to_array_mm();
    assert_eq!(arr, [-1, 2, -3]);
    assert_eq!(CelestialComponents::from_array_mm(arr), c);
}

#[test]
fn builder_components_convert() {
    let icrs = builder::icrs::Components { x_mm: 1, y_mm: 2, z_mm: 3 };
    assert_eq!(icrs.to_celestial(), CelestialComponents { x_mm: 1, y_mm: 2, z_mm: 3 });
    let mci = builder::mci::Components { x_mm: 4, y_mm: 5, z_mm: 6 };
    assert_eq!(mci.to_celestial(), CelestialComponents { x_mm: 4, y_mm: 5, z_mm: 6 });
    let gcrf = builder::gcrf::Components { x_mm: 7, y_mm: 8, z_mm: 9 };
    assert_eq!(gcrf.to_celestial(), CelestialComponents { x_mm: 7, y_mm: 8, z_mm: 9 });
}

#[test]
fn extension_traits_build_coordinates() {
    let m: Coordinate<Mci> = MciCoordinateExt::build(CelestialComponents {
        x_mm: 1,
        y_mm: 1,
        z_mm: 1,
    });
    assert_eq!(m.to_cartesian().x_mm, 1);
    let g: Coordinate<Gcrf> = GcrfCoordinateExt::build(CelestialComponents {
        x_mm: 2,
        y_mm: 2,
        z_mm: 2,
    });
    assert_eq!(g.to_cartesian().z_mm, 2);
}

#[test]
fn timed_coordinate_creation() {
    let pos = Coordinate::<Icrs>::build(CelestialComponents {
        x_mm: 1000,
        y_mm: 2000,
        z_mm: 3000,
    });
    let time = UtcInstant { unix_seconds: chrono::Utc::now().timestamp() };
    let timed = TimedCoordinate::new(pos, time);
    assert_eq!(timed.position().to_cartesian(), pos.to_cartesian());
    assert_eq!(timed.epoch(), time);
}

#[test]
fn timed_coordinate_with_methods() {
    let pos1 = Coordinate::<Icrs>::build(CelestialComponents { x_mm: 1000, y_mm: 0, z_mm: 0 });
    let pos2 = Coordinate::<Icrs>::build(CelestialComponents { x_mm: 2000, y_mm: 0, z_mm: 0 });
    let time1 = UtcInstant { unix_seconds: chrono::Utc::now().timestamp() };
    let time2 = UtcInstant { unix_seconds: time1.unix_seconds + 3600 };
    let timed = TimedCoordinate::new(pos1, time1);
    let updated = timed.with_position(pos2).with_epoch(time2);
    assert_eq!(updated.position().to_cartesian(), pos2.to_cartesian());
    assert_eq!(updated.epoch(), time2);
}

#[test]
fn ephemeris_state_accessors() {
    let pos = Coordinate::<Icrs>::build(CelestialComponents {
        x_mm: 7_000_000_000,
        y_mm: 0,
        z_mm: 0,
    });
    let vel = VelocityVector::<Icrs>::build(0, 7_546_000, 0);
    let epoch = UtcInstant { unix_seconds: 0 };
    let state = EphemerisState::new(pos, vel, epoch);
    assert_eq!(state.velocity().y_mm_per_s, 7_546_000);
    let (p, v, e) = state.into_parts();
    assert_eq!(p.to_cartesian().x_mm, 7_000_000_000);
    assert_eq!(v.y_mm_per_s, 7_546_000);
    assert_eq!(e, epoch);
    let moved = EphemerisState::new(pos, vel, epoch).with_epoch(UtcInstant { unix_seconds: 60 });
    assert_eq!(moved.epoch().unix_seconds, 60);
}

#[test]
fn keplerian_default_is_circular_low_orbit() {
    let k = KeplerianElements::default();
    assert_eq!(k.semi_major_axis_m, 7_000_000);
    assert_eq!(k.eccentricity_e8, 0);
    assert_eq!(k.inclination_deg_e8, 0);
    assert_eq!(k.mu, MU_EARTH);
}

#[test]
fn keplerian_new_and_with_mu() {
    let k = KeplerianElements::new(6_797_000, 14_730, 5_164_610_000, 1, 2, 3);
    assert_eq!(k.semi_major_axis_m, 6_797_000);
    assert_eq!(k.mu, MU_EARTH);
    let moon = k.with_mu(4_902_800_066_000);
    assert_eq!(moon.mu, 4_902_800_066_000);
    assert_eq!(moon.semi_major_axis_m, 6_797_000);
}

#[test]
fn cache_hit_reuses_transform() {
    let mut cached = CachedTransform::<u64>::new(60);
    let epoch = chrono::Utc::now().timestamp();
    let calls = std::cell::Cell::new(0usize);
    let t1 = cached.get_or_compute(epoch, |_| {
        calls.set(calls.get() + 1);
        11
    });
    // Second call with same epoch - should reuse
    let t2 = cached.get_or_compute(epoch, |_| {
        calls.set(calls.get() + 1);
        22
    });
    assert_eq!(calls.get(), 1);
    assert_eq!(t1, 11);
    assert_eq!(t2, 11);
}

#[test]
fn cache_miss_on_time_change() {
    let mut cached = CachedTransform::<u64>::new(10);
    let epoch1 = chrono::Utc::now().timestamp();
    let epoch2 = epoch1 + 20;
    let calls = std::cell::Cell::new(0usize);
    let _t1 = cached.get_or_compute(epoch1, |_| {
        calls.set(calls.get() + 1);
        11
    });
    // Second call with different epoch - should recompute
    let t2 = cached.get_or_compute(epoch2, |_| {
        calls.set(calls.get() + 1);
        22
    });
    assert_eq!(calls.get(), 2);
    assert_eq!(t2, 22);
}

#[test]
fn invalidate_clears_cache() {
    let mut cached = CachedTransform::<u64>::new(60);
    let epoch = chrono::Utc::now().timestamp();
    let _ = cached.get_or_compute(epoch, |_| 11);
    assert!(cached.is_valid_for(epoch));
    cached.invalidate();
    assert!(!cached.is_valid_for(epoch));
}

#[test]
fn cache_tolerance_boundary_is_inclusive() {
    let mut cached = CachedTransform::<u64>::new(60);
    let _ = cached.get_or_compute(1000, |_| 1);
    assert!(cached.is_valid_for(1060));
    assert!(cached.is_valid_for(940));
    assert!(!cached.is_valid_for(1061));
    assert!(!cached.is_valid_for(939));
}

#[test]
fn ra_dec_north_pole() {
    // A point at declination 90° and 1000 km: on the polar axis.
    let pos = Coordinate::<Icrs>::from_ra_dec_trig(
        1_000_000_000,
        0,
        1_000_000_000_000_000_000,
        1_000_000_000_000_000_000,
        0,
    );
    let parts = pos.to_cartesian();
    assert!(parts.x_mm.abs() < 1000);
    assert!(parts.y_mm.abs() < 1000);
    assert!((parts.z_mm - 1_000_000_000).abs() < 1000);
}

#[test]
fn ra_dec_cartesian_matches_reference() {
    // 45° right ascension, 30° declination, 1000 km, against the floating
    // point formulas.
    let ra = 45.0_f64.to_radians();
    let dec = 30.0_f64.to_radians();
    let sin_of = |v: f64| (v * 1e18).round() as i64;
    let pos = Coordinate::<Icrs>::from_ra_dec_trig(
        1_000_000_000,
        sin_of(ra.sin()),
        sin_of(ra.cos()),
        sin_of(dec.sin()),
        sin_of(dec.cos()),
    );
    let parts = pos.to_cartesian();
    let r = 1_000_000_000.0_f64;
    assert!((parts.x_mm as f64 - r * dec.cos() * ra.cos()).abs() < 10.0);
    assert!((parts.y_mm as f64 - r * dec.cos() * ra.sin()).abs() < 10.0);
    assert!((parts.z_mm as f64 - r * dec.sin()).abs() < 10.0);
}
