//! Client-side core of a transit open-data timetable API: typed,
//! mode-qualified entity identifiers with a round-tripping text form,
//! deterministic query-string assembly, and the HMAC-based URL-signing
//! protocol the remote service requires.

pub mod client;
pub mod dec;
pub mod errors;
pub mod hex;
pub mod ids;
pub mod modes;
pub mod pct;
pub mod query;
pub mod records;
pub mod sign;
pub mod strutil;

pub use client::Credentials;
pub use client::base_url;
pub use client::departures_path;
pub use client::departures_request;
pub use client::search_path;
pub use client::search_request;
pub use errors::Error;
pub use errors::ParseError;
pub use ids::Direction;
pub use ids::DirectionId;
pub use ids::DisruptionId;
pub use ids::Route;
pub use ids::RouteId;
pub use ids::Run;
pub use ids::RunId;
pub use ids::RunRef;
pub use ids::Stop;
pub use ids::StopId;
pub use modes::HealthStatus;
pub use modes::RouteType;
pub use query::DeparturesParams;
pub use query::QueryParam;
pub use query::QueryValue;
pub use query::ResponseExpand;
pub use query::encode_query;
pub use records::DepartureDetails;
pub use records::DirectionDetails;
pub use records::DisruptionDetails;
pub use records::DisruptionDirection;
pub use records::DisruptionRoute;
pub use records::DisruptionStop;
pub use records::ErrorResponse;
pub use records::OutletDetails;
pub use records::RouteDetails;
pub use records::ServiceStatusDetails;
pub use records::Status;
pub use records::VehicleDescriptor;
pub use sign::SignedUrl;
pub use sign::sign;
