//! Tests of the request signer and the two signed endpoints: deterministic
//! signatures, the signed-URL shape, and the double-encoded search term.

use ptv::{
    base_url, departures_path, departures_request, search_path, search_request, sign,
    Credentials, DeparturesParams, QueryParam, QueryValue, RouteType, Stop, StopId,
};

fn signature_suffix(query: &str) -> &str {
    let marker = "&signature=";
    let at = query.rfind(marker).expect("signed query must carry a signature");
    &query[at + marker.len()..]
}

#[test]
fn signing_is_deterministic() {
    let a = sign(base_url(), "/v3/search/x", "", "1", "k");
    let b = sign(base_url(), "/v3/search/x", "", "1", "k");
    assert_eq!(a.query, b.query);
    let hex = signature_suffix(&a.query);
    assert_eq!(hex.len(), 40);
    assert!(hex.chars().all(|c| matches!(c, '0'..='9' | 'A'..='F')));
}

#[test]
fn signed_query_ends_with_devid_then_signature() {
    let u = sign(base_url(), "/v3/search/x", "", "1", "k");
    let hex = signature_suffix(&u.query);
    assert_eq!(u.query, format!("devid=1&signature={hex}"));
}

#[test]
fn signed_query_preserves_the_encoded_parameters() {
    let u = sign(base_url(), "/p", "a=1&b=2", "dev", "key");
    let hex = signature_suffix(&u.query);
    assert_eq!(u.query, format!("a=1&b=2&devid=dev&signature={hex}"));
}

#[test]
fn signature_depends_on_every_input() {
    let base = sign(base_url(), "/p", "a=1", "d", "k");
    let other_path = sign(base_url(), "/q", "a=1", "d", "k");
    let other_query = sign(base_url(), "/p", "a=2", "d", "k");
    let other_key = sign(base_url(), "/p", "a=1", "d", "kk");
    assert_ne!(signature_suffix(&base.query), signature_suffix(&other_path.query));
    assert_ne!(signature_suffix(&base.query), signature_suffix(&other_query.query));
    assert_ne!(signature_suffix(&base.query), signature_suffix(&other_key.query));
}

#[test]
fn devid_value_is_percent_encoded() {
    let u = sign(base_url(), "/p", "", "a b", "k");
    assert!(u.query.starts_with("devid=a%20b&signature="));
}

#[test]
fn url_string_joins_base_path_and_query() {
    let u = sign("https://host.example", "/p", "a=1", "d", "k");
    let hex = signature_suffix(&u.query).to_string();
    assert_eq!(
        u.url_string(),
        format!("https://host.example/p?a=1&devid=d&signature={hex}")
    );
}

#[test]
fn search_term_is_double_encoded() {
    // One encoding turns the space into %20; the second encodes the '%'
    // itself, so the path carries %2520.
    assert_eq!(search_path("Flinders St").as_str(), "/v3/search/Flinders%2520St");
}

#[test]
fn plain_search_term_passes_through() {
    assert_eq!(search_path("Richmond").as_str(), "/v3/search/Richmond");
}

#[test]
fn empty_search_term_yields_the_bare_path() {
    assert_eq!(search_path("").as_str(), "/v3/search/");
}

#[test]
fn departures_path_carries_mode_code_and_stop_id() {
    let flinders = Stop { route_type: RouteType::Train, id: StopId::new(1071) };
    assert_eq!(departures_path(&flinders).as_str(), "/v3/departures/route_type/0/stop/1071");
}

#[test]
fn departures_request_composes_path_query_and_signature() {
    let flinders = Stop { route_type: RouteType::Train, id: StopId::new(1071) };
    let params = DeparturesParams { max_results: Some(5), ..Default::default() };
    let creds = Credentials::new("300".to_string(), "secret".to_string());
    let u = departures_request(base_url(), &flinders, &params, &creds);
    assert_eq!(u.base, base_url());
    assert_eq!(u.path, "/v3/departures/route_type/0/stop/1071");
    let hex = signature_suffix(&u.query);
    assert_eq!(u.query, format!("max_results=5&devid=300&signature={hex}"));
}

#[test]
fn search_request_composes_path_query_and_signature() {
    let creds = Credentials::new("300".to_string(), "secret".to_string());
    let extra = vec![QueryParam {
        name: "include_outlets".to_string(),
        value: QueryValue::Bool(false),
    }];
    let u = search_request(base_url(), "Flinders St", &extra, &creds);
    assert_eq!(u.path, "/v3/search/Flinders%2520St");
    let hex = signature_suffix(&u.query);
    assert_eq!(u.query, format!("include_outlets=false&devid=300&signature={hex}"));
    assert_eq!(
        u.url_string(),
        format!(
            "https://timetableapi.ptv.vic.gov.au/v3/search/Flinders%2520St\
             ?include_outlets=false&devid=300&signature={hex}"
        )
    );
}
