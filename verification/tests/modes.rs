//! Tests of the transport mode registry: stable codes, canonical names, and
//! the one-directional text form for unknown codes.

use ptv::{HealthStatus, ParseError, RouteType};

#[test]
fn from_code_yields_known_variants() {
    assert_eq!(RouteType::from_code(0), RouteType::Train);
    assert_eq!(RouteType::from_code(1), RouteType::Tram);
    assert_eq!(RouteType::from_code(2), RouteType::Bus);
    assert_eq!(RouteType::from_code(3), RouteType::Vline);
    assert_eq!(RouteType::from_code(4), RouteType::NightBus);
}

#[test]
fn from_code_never_fails_on_unknown_codes() {
    assert_eq!(RouteType::from_code(99), RouteType::Unknown(99));
    assert_eq!(RouteType::from_code(-1), RouteType::Unknown(-1));
}

#[test]
fn unknown_code_keeps_its_name_synthetic() {
    assert_eq!(RouteType::from_code(99).name().as_str(), "Unknown(99)");
    assert_eq!(RouteType::from_code(-7).name().as_str(), "Unknown(-7)");
}

#[test]
fn known_mode_names() {
    assert_eq!(RouteType::Train.name().as_str(), "Train");
    assert_eq!(RouteType::Tram.name().as_str(), "Tram");
    assert_eq!(RouteType::Bus.name().as_str(), "Bus");
    assert_eq!(RouteType::Vline.name().as_str(), "Vline");
    assert_eq!(RouteType::NightBus.name().as_str(), "NightBus");
}

#[test]
fn from_name_is_case_insensitive() {
    assert_eq!(RouteType::from_name("train"), Ok(RouteType::Train));
    assert_eq!(RouteType::from_name("TRAIN"), Ok(RouteType::Train));
    assert_eq!(RouteType::from_name("NightBus"), Ok(RouteType::NightBus));
    assert_eq!(RouteType::from_name("nightbus"), Ok(RouteType::NightBus));
}

#[test]
fn from_name_rejects_the_synthetic_unknown_form() {
    // Documented asymmetry: the formatted Unknown(<code>) name is not
    // accepted back by the name parser.
    assert_eq!(RouteType::from_name("Unknown(99)"), Err(ParseError::UnknownMode));
}

#[test]
fn from_name_rejects_arbitrary_text() {
    assert_eq!(RouteType::from_name("teleport"), Err(ParseError::UnknownMode));
    assert_eq!(RouteType::from_name(""), Err(ParseError::UnknownMode));
}

#[test]
fn new_and_value_expose_the_raw_code() {
    assert_eq!(RouteType::new(3), RouteType::Vline);
    assert_eq!(RouteType::new(3).value(), 3);
    assert_eq!(RouteType::new(42).value(), 42);
    assert_eq!(RouteType::Train.value(), 0);
}

#[test]
fn mode_round_trips_through_its_code() {
    for code in [-3, 0, 1, 2, 3, 4, 5, 1000] {
        assert_eq!(RouteType::from_code(code).value(), code);
    }
}

#[test]
fn health_status_codes_and_names() {
    assert_eq!(HealthStatus::from_code(0), HealthStatus::Offline);
    assert_eq!(HealthStatus::from_code(1), HealthStatus::Online);
    assert_eq!(HealthStatus::from_code(7), HealthStatus::Unknown(7));
    assert_eq!(HealthStatus::Offline.name().as_str(), "Offline");
    assert_eq!(HealthStatus::Online.name().as_str(), "Online");
    assert_eq!(HealthStatus::Unknown(7).name().as_str(), "Unknown(7)");
    assert_eq!(HealthStatus::Unknown(7).value(), 7);
}
