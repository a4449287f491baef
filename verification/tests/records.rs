//! Tests of the response record shapes and the error taxonomy: plain data
//! the transport decodes into and hands through unchanged.

use ptv::{
    DirectionDetails, DirectionId, Error, ErrorResponse, HealthStatus, ParseError, RouteId,
    RouteType, ServiceStatusDetails, Status,
};

#[test]
fn status_carries_version_and_health() {
    let s = Status { version: "3".to_string(), health: HealthStatus::Online };
    assert_eq!(s.version, "3");
    assert_eq!(s.health, HealthStatus::Online);
}

#[test]
fn error_taxonomy_is_matchable() {
    let api = Error::Api(
        403,
        ErrorResponse {
            message: "Supplied signature is invalid for request.".to_string(),
            status: Status { version: "3".to_string(), health: HealthStatus::Online },
        },
    );
    match api {
        Error::Api(status, body) => {
            assert_eq!(status, 403);
            assert!(body.message.contains("signature"));
        }
        _ => unreachable!(),
    }
    assert!(matches!(Error::Parse(ParseError::UnknownMode), Error::Parse(_)));
    assert!(matches!(Error::Transport("refused".to_string()), Error::Transport(_)));
    assert!(matches!(Error::Http(500, String::new()), Error::Http(500, _)));
    assert!(matches!(Error::Decode("bad body".to_string()), Error::Decode(_)));
}

#[test]
fn records_hold_their_fields() {
    let d = DirectionDetails {
        direction_id: DirectionId::new(1),
        direction_name: "City (Flinders Street)".to_string(),
        route_id: RouteId::new(6),
        route_type: RouteType::Train,
    };
    assert_eq!(d.direction_id, DirectionId::new(1));
    assert_eq!(d.route_type.value(), 0);
    let s = ServiceStatusDetails {
        description: "Good Service".to_string(),
        timestamp: "2024-01-01T00:00:00Z".to_string(),
    };
    assert_eq!(s.description, "Good Service");
}
