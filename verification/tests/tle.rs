use celestial::constants::MU_EARTH;
use celestial::tle::tle_epoch_to_datetime;
use celestial::{CelestialError, TleElements};

const LINE1: &str = "1 25544U 98067A   20206.18539600  .00001406  00000-0  33518-4 0  9992";
const LINE2: &str = "2 25544  51.6461 339.8014 0001473  94.8340 265.2864 15.49309432236008";

fn parse_error_reason(line1: &str, line2: &str) -> String {
    match TleElements::from_lines(line1, line2) {
        Err(CelestialError::InvalidCoordinates { reason }) => reason,
        other => panic!("expected a parse error, got {:?}", other),
    }
}

#[test]
fn parse_iss_tle() {
    let tle = TleElements::from_lines(LINE1, LINE2).unwrap();
    assert_eq!(tle.catalog_number(), 25544);
    assert!((tle.inclination() as f64 / 1e8 - 51.6461).abs() < 0.001);
    assert!((tle.eccentricity() as f64 / 1e8 - 0.0001473).abs() < 0.000001);
}

#[test]
fn parse_iss_tle_fields_are_exact() {
    let tle = TleElements::from_lines(LINE1, LINE2).unwrap();
    assert_eq!(tle.inclination(), 51_6461_0000);
    assert_eq!(tle.raan(), 339_8014_0000);
    assert_eq!(tle.eccentricity(), 14_730);
    assert_eq!(tle.arg_perigee(), 94_8340_0000);
    assert_eq!(tle.mean_anomaly(), 265_2864_0000);
    assert_eq!(tle.mean_motion(), 15_4930_9432);
    // 2020-07-24T04:26:58Z, the 206.18539600th day of 2020.
    assert_eq!(tle.epoch().unix_seconds, 1_595_564_818);
}

#[test]
fn tle_epoch_conversion() {
    let dt = tle_epoch_to_datetime(2020, 206_185_396_00).unwrap();
    let chrono_dt = chrono::DateTime::from_timestamp(dt.unix_seconds, 0).unwrap();
    assert_eq!(chrono::Datelike::year(&chrono_dt), 2020);
    // Day 206 is July 24.
    assert_eq!(chrono::Datelike::month(&chrono_dt), 7);
    assert_eq!(chrono::Datelike::day(&chrono_dt), 24);
}

#[test]
fn tle_to_keplerian() {
    let tle = TleElements::from_lines(LINE1, LINE2).unwrap();
    let kep = tle.to_keplerian();
    // ISS orbit should be around 6700-6800 km
    let a_km = kep.semi_major_axis_m as f64 / 1000.0;
    assert!(a_km > 6700.0 && a_km < 6900.0);
}

#[test]
fn tle_semi_major_axis_matches_reference() {
    let tle = TleElements::from_lines(LINE1, LINE2).unwrap();
    let kep = tle.to_keplerian();
    let n = tle.mean_motion() as f64 / 1e8 * 2.0 * std::f64::consts::PI / 86400.0;
    let a_ref = (MU_EARTH as f64 / (n * n)).powf(1.0 / 3.0);
    assert!((kep.semi_major_axis_m as f64 - a_ref).abs() < 1.0);
}

#[test]
fn tle_to_keplerian_copies_elements() {
    let tle = TleElements::from_lines(LINE1, LINE2).unwrap();
    let kep = tle.to_keplerian();
    assert_eq!(kep.eccentricity_e8, tle.eccentricity());
    assert_eq!(kep.inclination_deg_e8, tle.inclination());
    assert_eq!(kep.raan_deg_e8, tle.raan());
    assert_eq!(kep.argument_of_periapsis_deg_e8, tle.arg_perigee());
    assert_eq!(kep.true_anomaly_deg_e8, tle.mean_anomaly());
    assert_eq!(kep.mu, MU_EARTH);
}

#[test]
fn tle_rejects_short_lines() {
    assert_eq!(parse_error_reason("1 25544", LINE2), "TLE lines must be 69 characters");
}

#[test]
fn tle_rejects_wrong_line_numbers() {
    assert_eq!(parse_error_reason(LINE2, LINE1), "Invalid TLE line numbers");
}

#[test]
fn tle_rejects_bad_catalog_number() {
    let bad = "1 2x544U 98067A   20206.18539600  .00001406  00000-0  33518-4 0  9992";
    assert_eq!(parse_error_reason(bad, LINE2), "Invalid catalog number");
}

#[test]
fn tle_rejects_bad_epoch_year() {
    let bad = "1 25544U 98067A   x0206.18539600  .00001406  00000-0  33518-4 0  9992";
    assert_eq!(parse_error_reason(bad, LINE2), "Invalid epoch year");
}

#[test]
fn tle_rejects_bad_epoch_day() {
    let bad = "1 25544U 98067A   20206.1853x600  .00001406  00000-0  33518-4 0  9992";
    assert_eq!(parse_error_reason(bad, LINE2), "Invalid epoch day");
}

#[test]
fn tle_rejects_bad_inclination() {
    let bad = "2 25544  51.x461 339.8014 0001473  94.8340 265.2864 15.49309432236008";
    assert_eq!(parse_error_reason(LINE1, bad), "Invalid inclination");
}

#[test]
fn tle_rejects_bad_raan() {
    let bad = "2 25544  51.6461 33x.8014 0001473  94.8340 265.2864 15.49309432236008";
    assert_eq!(parse_error_reason(LINE1, bad), "Invalid RAAN");
}

#[test]
fn tle_rejects_bad_eccentricity() {
    let bad = "2 25544  51.6461 339.8014 00.1473  94.8340 265.2864 15.49309432236008";
    assert_eq!(parse_error_reason(LINE1, bad), "Invalid eccentricity");
}

#[test]
fn tle_rejects_bad_argument_of_perigee() {
    let bad = "2 25544  51.6461 339.8014 0001473  9x.8340 265.2864 15.49309432236008";
    assert_eq!(parse_error_reason(LINE1, bad), "Invalid argument of perigee");
}

#[test]
fn tle_rejects_bad_mean_anomaly() {
    let bad = "2 25544  51.6461 339.8014 0001473  94.8340 2x5.2864 15.49309432236008";
    assert_eq!(parse_error_reason(LINE1, bad), "Invalid mean anomaly");
}

#[test]
fn tle_rejects_bad_mean_motion() {
    let bad = "2 25544  51.6461 339.8014 0001473  94.8340 265.2864 15.4930943x236008";
    assert_eq!(parse_error_reason(LINE1, bad), "Invalid mean motion");
}

#[test]
fn tle_accepts_whitespace_padded_fields() {
    let l2 = "2 25544   1.5    339.8014 0001473  94.8340 265.2864 15.49309432236008";
    let tle = TleElements::from_lines(LINE1, l2).unwrap();
    assert_eq!(tle.inclination(), 150_000_000);
}

#[test]
fn tle_epoch_accepts_any_calendar_year() {
    // Any year the calendar constructs is converted, far outside the
    // two-digit range the parser itself produces.
    let early = tle_epoch_to_datetime(100, 100_000_000).unwrap();
    assert!(early.unix_seconds < 0);
    let late = tle_epoch_to_datetime(250_000, 100_000_000).unwrap();
    assert!(late.unix_seconds > 0);
}

#[test]
fn tle_epoch_rejects_uncalendared_year() {
    match tle_epoch_to_datetime(300_000, 100_000_000) {
        Err(CelestialError::InvalidCoordinates { reason }) => {
            assert_eq!(reason, "Invalid year");
        }
        other => panic!("expected an invalid-year error, got {:?}", other),
    }
    assert!(tle_epoch_to_datetime(-300_000, 100_000_000).is_err());
}
