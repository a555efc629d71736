use celestial::constants::{utc_to_julian_date, J2000_JD_MICROS};
use celestial::time_scales::{
    tdb_from_tt, tdb_mean_anomaly_deg_e7, tt_to_utc_approx, MAX_VALID_JD_MICROS,
    MIN_VALID_JD_MICROS,
};
use celestial::{utc_to_tai, utc_to_tt, utc_to_ut1, validate_epoch, CelestialError, UtcInstant};

const MICROS_PER_DAY: f64 = 86_400_000_000.0;

fn now_instant() -> UtcInstant {
    UtcInstant { unix_seconds: chrono::Utc::now().timestamp() }
}

#[test]
fn utc_to_jd_conversion() {
    let j2000 = chrono::TimeZone::with_ymd_and_hms(&chrono::Utc, 2000, 1, 1, 12, 0, 0).unwrap();
    let jd = utc_to_julian_date(UtcInstant { unix_seconds: j2000.timestamp() });
    let jd_days = jd.micros as f64 / MICROS_PER_DAY;
    assert!((jd_days - 2451545.0).abs() < 0.01);
}

#[test]
fn jd_of_j2000_noon_is_exact() {
    let jd = utc_to_julian_date(UtcInstant { unix_seconds: 946_728_000 });
    assert_eq!(jd.micros, J2000_JD_MICROS);
}

#[test]
fn utc_to_tai_offset_is_positive() {
    let utc = now_instant();
    let tai = utc_to_tai(utc);
    let utc_jd = utc_to_julian_date(utc);
    assert!(tai.micros - utc_jd.micros > 0);
    assert!((tai.micros - utc_jd.micros) as f64 / 1_000_000.0 > 30.0);
}

#[test]
fn utc_to_tt_offset_is_correct() {
    let utc = now_instant();
    let tt = utc_to_tt(utc);
    let utc_jd = utc_to_julian_date(utc);
    let offset_seconds = (tt.micros - utc_jd.micros) as f64 / 1_000_000.0;
    let expected = 37.0 + 32.184;
    assert!((offset_seconds - expected).abs() < 0.1);
}

#[test]
fn tt_to_utc_roundtrip_is_approximate() {
    let utc = now_instant();
    let tt = utc_to_tt(utc);
    let utc_back = tt_to_utc_approx(tt);
    let utc_jd = utc_to_julian_date(utc);
    assert!((utc_back.micros - utc_jd.micros).abs() < 1_000_000);
}

#[test]
fn tdb_differs_from_tt_by_small_amount() {
    let utc = now_instant();
    let tt = utc_to_tt(utc);
    let g_deg = tdb_mean_anomaly_deg_e7(tt) as f64 / 1e7;
    let g = g_deg.to_radians();
    let periodic_seconds = 0.001658 * g.sin() + 0.000014 * (2.0 * g).sin();
    let periodic_micros = (periodic_seconds * 1e6).round() as i64;
    let tdb = tdb_from_tt(tt, periodic_micros);
    let diff_seconds = (tdb.micros - tt.micros).abs() as f64 / 1e6;
    assert!(diff_seconds < 0.002);
}

#[test]
fn tdb_mean_anomaly_matches_reference() {
    let tt = utc_to_tt(UtcInstant { unix_seconds: 1_595_564_818 });
    let g_deg = tdb_mean_anomaly_deg_e7(tt) as f64 / 1e7;
    let t_days = (tt.micros - J2000_JD_MICROS) as f64 / MICROS_PER_DAY;
    let g_ref = (357.53 + 0.9856003 * t_days).rem_euclid(360.0);
    assert!((g_deg - g_ref).abs() < 1e-6);
}

#[test]
fn ut1_is_identified_with_utc() {
    let utc = now_instant();
    assert_eq!(utc_to_ut1(utc).micros, utc_to_julian_date(utc).micros);
}

#[test]
fn epoch_validation_accepts_supported_years() {
    assert!(validate_epoch(UtcInstant { unix_seconds: -2_208_988_800 }).is_ok());
    assert!(validate_epoch(UtcInstant { unix_seconds: 0 }).is_ok());
    assert!(validate_epoch(UtcInstant { unix_seconds: 4_133_980_799 }).is_ok());
}

#[test]
fn epoch_validation_rejects_out_of_range_years() {
    let early = UtcInstant { unix_seconds: -2_208_988_801 };
    let late = UtcInstant { unix_seconds: 4_133_980_800 };
    match validate_epoch(early) {
        Err(CelestialError::EpochOutOfRange { epoch, min_jd, max_jd }) => {
            assert_eq!(epoch, early);
            assert_eq!(min_jd.micros, MIN_VALID_JD_MICROS);
            assert_eq!(max_jd.micros, MAX_VALID_JD_MICROS);
            assert!((min_jd.micros as f64 / MICROS_PER_DAY - 2415020.5).abs() < 1e-9);
            assert!((max_jd.micros as f64 / MICROS_PER_DAY - 2488070.5).abs() < 1e-9);
        }
        other => panic!("expected EpochOutOfRange, got {:?}", other),
    }
    assert!(validate_epoch(late).is_err());
}

#[test]
fn error_messages_name_their_cause() {
    let e = CelestialError::TimeScaleConversionFailed { reason: String::from("bad scale") };
    assert_eq!(e.message(), "time scale conversion failed: bad scale");
    let e = CelestialError::NumericalPrecisionError { reason: String::from("diverged") };
    assert_eq!(e.message(), "numerical precision error: diverged");
    let e = CelestialError::InvalidCoordinates { reason: String::from("bad field") };
    assert_eq!(e.message(), "invalid celestial coordinates: bad field");
}
