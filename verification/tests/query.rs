//! Exercises the query resolver with concrete floating-point payloads and
//! plain integer time tags, covering both calling conventions, the
//! defaulting rules, the trailing-time rule and both usage errors.

use density_query::classify;
use density_query::query_density;
use density_query::request_of;
use density_query::GeodeticLocation;
use density_query::QueryArg;
use density_query::QueryError;
use density_query::QueryForm;

type Arg = QueryArg<f64, u64>;

#[test]
fn empty_input_fails() {
    let args: Vec<Arg> = Vec::new();
    match query_density(&args) {
        Err(e) => assert_eq!(e, QueryError::EmptyInput),
        Ok(_) => panic!("an empty argument list must be rejected"),
    }
}

#[test]
fn unrecognized_first_argument_fails() {
    let args: Vec<Arg> = vec![QueryArg::Other];
    match query_density(&args) {
        Err(e) => assert_eq!(e, QueryError::InvalidArgumentType),
        Ok(_) => panic!("a non-coordinate, non-numeric first argument must be rejected"),
    }
}

#[test]
fn coordinate_form_scenario() {
    let coord: GeodeticLocation<f64> = GeodeticLocation {
        height_above_ellipsoid_m: 400000.0,
        latitude_rad: 0.5,
        longitude_rad: 1.0,
    };
    let args: Vec<Arg> = vec![QueryArg::Coordinate(coord)];
    let req = query_density(&args).unwrap();
    assert_eq!(req.altitude_m, 400000.0);
    assert_eq!(req.latitude_rad, Some(0.5));
    assert_eq!(req.longitude_rad, Some(1.0));
    assert_eq!(req.time, None);
    assert!(req.use_space_weather);
}

#[test]
fn scalar_form_altitude_only_scenario() {
    let args: Vec<Arg> = vec![QueryArg::Number(400000.0)];
    let req = query_density(&args).unwrap();
    assert_eq!(req.altitude_m, 400000.0);
    assert_eq!(req.latitude_rad, None);
    assert_eq!(req.longitude_rad, None);
    assert_eq!(req.time, None);
    assert!(req.use_space_weather);
}

#[test]
fn scalar_form_altitude_latitude_time_scenario() {
    let args: Vec<Arg> = vec![QueryArg::Number(400000.0), QueryArg::Number(0.5), QueryArg::Time(77)];
    let req = query_density(&args).unwrap();
    assert_eq!(req.altitude_m, 400000.0);
    assert_eq!(req.latitude_rad, Some(0.5));
    assert_eq!(req.longitude_rad, None);
    assert_eq!(req.time, Some(77));
    assert!(req.use_space_weather);
}

#[test]
fn coordinate_form_with_trailing_time() {
    let coord: GeodeticLocation<f64> = GeodeticLocation {
        height_above_ellipsoid_m: 250000.0,
        latitude_rad: -0.25,
        longitude_rad: 2.5,
    };
    let args: Vec<Arg> = vec![QueryArg::Coordinate(coord), QueryArg::Time(9)];
    let req = query_density(&args).unwrap();
    assert_eq!(req.altitude_m, 250000.0);
    assert_eq!(req.latitude_rad, Some(-0.25));
    assert_eq!(req.longitude_rad, Some(2.5));
    assert_eq!(req.time, Some(9));
}

#[test]
fn time_anywhere_but_last_is_ignored() {
    let args: Vec<Arg> = vec![QueryArg::Number(10.0), QueryArg::Time(9), QueryArg::Number(1.0)];
    let req = query_density(&args).unwrap();
    assert_eq!(req.altitude_m, 10.0);
    assert_eq!(req.latitude_rad, None);
    assert_eq!(req.longitude_rad, Some(1.0));
    assert_eq!(req.time, None);
}

#[test]
fn positional_arguments_beyond_third_are_ignored() {
    let args: Vec<Arg> = vec![
        QueryArg::Number(1.0),
        QueryArg::Number(2.0),
        QueryArg::Number(3.0),
        QueryArg::Number(4.0),
    ];
    let req = query_density(&args).unwrap();
    assert_eq!(req.altitude_m, 1.0);
    assert_eq!(req.latitude_rad, Some(2.0));
    assert_eq!(req.longitude_rad, Some(3.0));
    assert_eq!(req.time, None);
}

#[test]
fn lone_time_instant_fails() {
    let args: Vec<Arg> = vec![QueryArg::Time(9)];
    match query_density(&args) {
        Err(e) => assert_eq!(e, QueryError::InvalidArgumentType),
        Ok(_) => panic!("a lone time instant is not an accepted first argument"),
    }
}

#[test]
fn zero_latitude_is_present_not_unspecified() {
    let args: Vec<Arg> = vec![QueryArg::Number(1.0), QueryArg::Number(0.0)];
    let req = query_density(&args).unwrap();
    assert_eq!(req.latitude_rad, Some(0.0));
}

#[test]
fn latitude_and_longitude_resolve_independently() {
    let args: Vec<Arg> = vec![QueryArg::Number(1.0), QueryArg::Other, QueryArg::Number(2.0)];
    let req = query_density(&args).unwrap();
    assert_eq!(req.latitude_rad, None);
    assert_eq!(req.longitude_rad, Some(2.0));
}

#[test]
fn classification_precedes_resolution() {
    let args: Vec<Arg> = vec![QueryArg::Number(5.0), QueryArg::Number(6.0), QueryArg::Time(3)];
    match classify(&args) {
        Ok(QueryForm::Scalars(altitude_m, latitude_rad, longitude_rad, time)) => {
            assert_eq!(altitude_m, 5.0);
            assert_eq!(latitude_rad, Some(6.0));
            assert_eq!(longitude_rad, None);
            assert_eq!(time, Some(3));
            let req = request_of(QueryForm::Scalars(altitude_m, latitude_rad, longitude_rad, time));
            assert_eq!(req.altitude_m, 5.0);
            assert!(req.use_space_weather);
        }
        _ => panic!("three scalars with a trailing time classify as the scalar form"),
    }
}

#[test]
fn error_messages_match_the_reported_text() {
    assert_eq!(QueryError::EmptyInput.message(), "Invalid number of arguments");
    assert_eq!(QueryError::InvalidArgumentType.message(), "Invalid arguments");
}
