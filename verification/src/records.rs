//! Typed response records of the timetable service. These are declarative
//! data shapes: the transport decodes wire JSON into them, and this library
//! carries them through unchanged. Timestamps are carried as the ISO 8601
//! UTC text the service sends.

use vstd::prelude::*;
use crate::ids::DirectionId;
use crate::ids::DisruptionId;
use crate::ids::RouteId;
use crate::ids::RunId;
use crate::ids::RunRef;
use crate::ids::StopId;
use crate::modes::HealthStatus;
use crate::modes::RouteType;

verus! {

/// API status and metadata.
#[derive(Clone, Debug)]
pub struct Status {
    /// API version number
    pub version: String,
    /// API system health status
    pub health: HealthStatus,
}

/// An error payload the service returns with a non-success status.
#[derive(Clone, Debug)]
pub struct ErrorResponse {
    /// Error message
    pub message: String,
    /// API status and metadata
    pub status: Status,
}

/// Service departure details.
#[derive(Clone, Debug)]
pub struct DepartureDetails {
    /// Stop identifier
    pub stop_id: StopId,
    /// Route identifier
    pub route_id: RouteId,
    /// Numeric run identifier; -1 when the run identifier is alphanumeric
    pub run_id: RunId,
    /// Alphanumeric run identifier
    pub run_ref: RunRef,
    /// Direction-of-travel identifier
    pub direction_id: DirectionId,
    /// Disruption information identifiers
    pub disruption_ids: Vec<DisruptionId>,
    /// Scheduled departure time, ISO 8601 UTC
    pub scheduled_departure_utc: String,
    /// Real-time departure estimate, ISO 8601 UTC, when known
    pub estimated_departure_utc: Option<String>,
    /// Whether the metropolitan train service is at the platform
    pub at_platform: bool,
    /// Platform number at the stop (metropolitan train only)
    pub platform_number: Option<String>,
    /// Special-condition flags for the run
    pub flags: String,
    /// Chronological sequence of the departures in a run
    pub departure_sequence: i32,
}

/// Descriptor of the vehicle serving a run.
#[derive(Clone, Debug)]
pub struct VehicleDescriptor {
    /// Operator name of the vehicle
    pub operator: Option<String>,
    /// Operator identifier of the vehicle
    pub id: Option<String>,
    /// Whether the vehicle has a low floor
    pub low_floor: Option<bool>,
    /// Whether the vehicle is air conditioned
    pub air_conditioned: Option<bool>,
    /// Vehicle description
    pub description: Option<String>,
    /// Supplier of the descriptor data
    pub supplier: Option<String>,
    /// Length of the vehicle
    pub length: Option<String>,
}

/// Directions of travel of a route.
#[derive(Clone, Debug)]
pub struct DirectionDetails {
    /// Direction-of-travel identifier
    pub direction_id: DirectionId,
    /// Name of the direction of travel
    pub direction_name: String,
    /// Route identifier
    pub route_id: RouteId,
    /// Transport mode identifier
    pub route_type: RouteType,
}

/// Service status of a route.
#[derive(Clone, Debug)]
pub struct ServiceStatusDetails {
    /// Service status description
    pub description: String,
    /// Time of the status
    pub timestamp: String,
}

/// A train line, tram route, bus route, regional coach route or night bus
/// route.
#[derive(Clone, Debug)]
pub struct RouteDetails {
    /// Transport mode identifier
    pub route_type: RouteType,
    /// Route identifier
    pub route_id: RouteId,
    /// Name of the route
    pub route_name: String,
    /// Route number presented to the public
    pub route_number: String,
    /// GTFS identifier of the route
    pub route_gtfs_id: Option<String>,
    /// Service status for the route
    pub route_service_status: Option<ServiceStatusDetails>,
}

/// Direction of travel relevant to a disruption.
#[derive(Clone, Debug)]
pub struct DisruptionDirection {
    /// Route and direction combination identifier
    pub route_direction_id: i32,
    /// Direction-of-travel identifier
    pub direction_id: DirectionId,
    /// Name of the direction of travel
    pub direction_name: String,
    /// Time of the service the disruption applies to
    pub service_time: String,
}

/// Route relevant to a disruption.
#[derive(Clone, Debug)]
pub struct DisruptionRoute {
    /// Transport mode identifier
    pub route_type: RouteType,
    /// Route identifier
    pub route_id: RouteId,
    /// Name of the route
    pub route_name: String,
    /// Route number presented to the public
    pub route_number: String,
    /// GTFS identifier of the route
    pub route_gtfs_id: Option<String>,
    /// Direction of travel relevant to the disruption
    pub route_service_status: Option<DisruptionDirection>,
}

/// Stop relevant to a disruption.
#[derive(Clone, Debug)]
pub struct DisruptionStop {
    /// Stop identifier
    pub stop_id: StopId,
    /// Name of the stop
    pub stop_name: String,
}

/// Disruption information applicable to routes or stops.
#[derive(Clone, Debug)]
pub struct DisruptionDetails {
    /// Disruption information identifier
    pub disruption_id: DisruptionId,
    /// Headline title of the disruption
    pub title: String,
    /// URL of the relevant article
    pub url: String,
    /// Description of the disruption
    pub description: String,
    /// Status of the disruption
    pub disruption_status: String,
    /// Type of the disruption
    pub disruption_type: String,
    /// When the disruption was published, ISO 8601 UTC
    pub published_on: Option<String>,
    /// When the disruption was last updated, ISO 8601 UTC
    pub last_updated: Option<String>,
    /// When the disruption begins, ISO 8601 UTC
    pub from_date: Option<String>,
    /// When the disruption ends, ISO 8601 UTC, when known
    pub to_date: Option<String>,
    /// Routes relevant to the disruption
    pub routes: Option<Vec<DisruptionRoute>>,
    /// Stops relevant to the disruption
    pub stops: Option<Vec<DisruptionStop>>,
    /// Display colour
    pub colour: Option<String>,
    /// Whether the disruption is displayed on boards
    pub display_on_board: Option<bool>,
    /// Whether the display status is set
    pub display_status: Option<bool>,
}

/// A ticket outlet.
#[derive(Clone, Debug)]
pub struct OutletDetails {
}

} // verus!
