//! Tests of the composite identifier codec: round trips, and one distinct
//! rejection per malformed input.

use ptv::{Direction, DirectionId, ParseError, Route, RouteId, RouteType, Run, RunRef, Stop, StopId};

#[test]
fn stop_round_trip() {
    let x = Stop { route_type: RouteType::Train, id: StopId::new(1071) };
    let text = x.format();
    assert_eq!(text.as_str(), "Stop:Train/1071");
    let back = Stop::parse(&text).expect("canonical text must parse");
    assert_eq!(back, x);
}

#[test]
fn route_round_trip() {
    let x = Route { route_type: RouteType::Bus, id: RouteId::new(8922) };
    let text = x.format();
    assert_eq!(text.as_str(), "Route:Bus/8922");
    let back = Route::parse(&text).expect("canonical text must parse");
    assert_eq!(back, x);
}

#[test]
fn direction_round_trip() {
    let x = Direction { route_type: RouteType::NightBus, id: DirectionId::new(3) };
    let text = x.format();
    assert_eq!(text.as_str(), "Direction:NightBus/3");
    let back = Direction::parse(&text).expect("canonical text must parse");
    assert_eq!(back, x);
}

#[test]
fn run_round_trip() {
    let x = Run { route_type: RouteType::Tram, id: RunRef::new("953X".to_string()) };
    let text = x.format();
    assert_eq!(text.as_str(), "Run:Tram/953X");
    let back = Run::parse(&text).expect("canonical text must parse");
    assert_eq!(back, x);
}

#[test]
fn run_round_trip_with_separator_characters() {
    // A run reference may itself hold ':' or '/': only the first occurrence
    // of each separator structures the text, so the round trip still holds.
    let x = Run { route_type: RouteType::Vline, id: RunRef::new("a/b:c".to_string()) };
    let text = x.format();
    assert_eq!(text.as_str(), "Run:Vline/a/b:c");
    let back = Run::parse(&text).expect("canonical text must parse");
    assert_eq!(back, x);
}

#[test]
fn run_round_trip_empty_reference() {
    let x = Run { route_type: RouteType::Train, id: RunRef::new(String::new()) };
    let back = Run::parse(&x.format()).expect("canonical text must parse");
    assert_eq!(back, x);
}

#[test]
fn stop_round_trip_negative_id() {
    let x = Stop { route_type: RouteType::Vline, id: StopId::new(-5) };
    let text = x.format();
    assert_eq!(text.as_str(), "Stop:Vline/-5");
    let back = Stop::parse(&text).expect("canonical text must parse");
    assert_eq!(back, x);
}

#[test]
fn stop_round_trip_extreme_ids() {
    for raw in [i32::MIN, i32::MAX, 0] {
        let x = Stop { route_type: RouteType::Tram, id: StopId::new(raw) };
        let back = Stop::parse(&x.format()).expect("canonical text must parse");
        assert_eq!(back, x);
    }
}

#[test]
fn parse_missing_slash_is_missing_separator() {
    assert_eq!(Stop::parse("Stop:Train1071"), Err(ParseError::MissingSeparator));
}

#[test]
fn parse_missing_colon_is_missing_separator() {
    assert_eq!(Stop::parse("Stop Train/1071"), Err(ParseError::MissingSeparator));
}

#[test]
fn parse_wrong_kind_is_kind_mismatch() {
    assert_eq!(Stop::parse("Route:Train/1071"), Err(ParseError::KindMismatch));
}

#[test]
fn parse_unknown_mode_name_is_rejected() {
    assert_eq!(Stop::parse("Stop:Teleport/1071"), Err(ParseError::UnknownMode));
}

#[test]
fn parse_non_numeric_scalar_is_invalid() {
    assert_eq!(Stop::parse("Stop:Train/10b71"), Err(ParseError::InvalidScalar));
}

#[test]
fn parse_overflowing_scalar_is_invalid() {
    assert_eq!(Stop::parse("Stop:Train/4294967296"), Err(ParseError::InvalidScalar));
}

#[test]
fn parse_empty_scalar_is_invalid() {
    assert_eq!(Stop::parse("Stop:Train/"), Err(ParseError::InvalidScalar));
}

#[test]
fn parse_mode_name_is_case_insensitive() {
    let a = Stop::parse("Stop:TRAIN/1").expect("upper-case mode name must parse");
    let b = Stop::parse("Stop:train/1").expect("lower-case mode name must parse");
    assert_eq!(a.route_type, RouteType::Train);
    assert_eq!(b.route_type, RouteType::Train);
}

#[test]
fn parse_numeric_mode_code() {
    let x = Stop::parse("Stop:7/99").expect("numeric mode code must parse");
    assert_eq!(x.route_type, RouteType::Unknown(7));
    assert_eq!(x.id, StopId::new(99));
}

#[test]
fn unknown_mode_text_does_not_round_trip() {
    // Documented asymmetry: the synthetic Unknown(<code>) name is formatted
    // but deliberately never parsed back.
    let x = Stop { route_type: RouteType::Unknown(99), id: StopId::new(1) };
    let text = x.format();
    assert_eq!(text.as_str(), "Stop:Unknown(99)/1");
    assert_eq!(Stop::parse(&text), Err(ParseError::UnknownMode));
}

#[test]
fn parse_error_descriptions() {
    assert_eq!(ParseError::MissingSeparator.describe(), "missing ':' or '/' separator");
    assert_eq!(ParseError::KindMismatch.describe(), "entity kind prefix does not match");
    assert_eq!(ParseError::UnknownMode.describe(), "unknown transport mode");
    assert_eq!(ParseError::InvalidScalar.describe(), "invalid identifier scalar");
}

#[test]
fn scalar_accessors_round_trip() {
    assert_eq!(StopId::new(7).value(), 7);
    assert_eq!(RouteId::new(-3).value(), -3);
    assert_eq!(DirectionId::new(0).value(), 0);
    assert_eq!(RunRef::new("x1".to_string()).value(), "x1");
}
