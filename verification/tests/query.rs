//! Tests of the query encoder: absent fields omitted, list order preserved,
//! values percent-encoded, and byte-identical output for identical input.

use ptv::{
    encode_query, DeparturesParams, DirectionId, QueryParam, QueryValue, ResponseExpand,
};

#[test]
fn departures_params_encode_in_field_order() {
    let params = DeparturesParams {
        max_results: Some(5),
        expand: Some(vec![ResponseExpand::Route, ResponseExpand::Run]),
        ..Default::default()
    };
    let q = params.to_query_string();
    assert_eq!(q.as_str(), "max_results=5&expand=Route&expand=Run");
}

#[test]
fn empty_params_encode_to_an_empty_query() {
    let q = DeparturesParams::default().to_query_string();
    assert_eq!(q.as_str(), "");
}

#[test]
fn list_values_repeat_the_key_in_order() {
    let params = DeparturesParams {
        platform_numbers: Some(vec![4, 2, 9]),
        ..Default::default()
    };
    let q = params.to_query_string();
    assert_eq!(q.as_str(), "platform_numbers=4&platform_numbers=2&platform_numbers=9");
}

#[test]
fn booleans_encode_as_words() {
    let params = DeparturesParams {
        gtfs: Some(true),
        include_geopath: Some(false),
        ..Default::default()
    };
    let q = params.to_query_string();
    assert_eq!(q.as_str(), "gtfs=true&include_geopath=false");
}

#[test]
fn text_values_are_percent_encoded() {
    let params = DeparturesParams {
        date_utc: Some("2024-01-01T00:00:00Z".to_string()),
        ..Default::default()
    };
    let q = params.to_query_string();
    assert_eq!(q.as_str(), "date_utc=2024%2D01%2D01T00%3A00%3A00Z");
}

#[test]
fn all_fields_appear_in_declaration_order() {
    let params = DeparturesParams {
        platform_numbers: Some(vec![1]),
        direction_id: Some(DirectionId::new(8)),
        gtfs: Some(false),
        date_utc: Some("x".to_string()),
        max_results: Some(3),
        include_cancelled: Some(true),
        look_backwards: Some(false),
        expand: Some(vec![ResponseExpand::All]),
        include_geopath: Some(true),
    };
    let q = params.to_query_string();
    assert_eq!(
        q.as_str(),
        "platform_numbers=1&direction_id=8&gtfs=false&date_utc=x&max_results=3\
         &include_cancelled=true&look_backwards=false&expand=All&include_geopath=true"
    );
}

#[test]
fn expand_wire_names() {
    assert_eq!(ResponseExpand::All.name(), "All");
    assert_eq!(ResponseExpand::Stop.name(), "Stop");
    assert_eq!(ResponseExpand::Route.name(), "Route");
    assert_eq!(ResponseExpand::Run.name(), "Run");
    assert_eq!(ResponseExpand::Direction.name(), "Direction");
    assert_eq!(ResponseExpand::Disruption.name(), "Disruption");
    assert_eq!(ResponseExpand::VehicleDescriptor.name(), "VehicleDescriptor");
    assert_eq!(ResponseExpand::VehiclePosition.name(), "VehiclePosition");
    assert_eq!(ResponseExpand::NoExpand.name(), "None");
}

#[test]
fn generic_bag_percent_encodes_free_text() {
    let bag = vec![QueryParam {
        name: "q".to_string(),
        value: QueryValue::Text("a b&c".to_string()),
    }];
    assert_eq!(encode_query(&bag).as_str(), "q=a%20b%26c");
}

#[test]
fn generic_bag_joins_parameters_with_ampersands() {
    let bag = vec![
        QueryParam { name: "a".to_string(), value: QueryValue::Int(-7) },
        QueryParam { name: "b".to_string(), value: QueryValue::Bool(true) },
        QueryParam {
            name: "c".to_string(),
            value: QueryValue::TextList(vec!["x".to_string(), "y".to_string()]),
        },
        QueryParam { name: "d".to_string(), value: QueryValue::IntList(vec![]) },
    ];
    // The negative sign is itself percent-encoded; an empty list emits no
    // pair at all.
    assert_eq!(encode_query(&bag).as_str(), "a=%2D7&b=true&c=x&c=y");
}

#[test]
fn encoding_is_deterministic() {
    let make = || DeparturesParams {
        max_results: Some(5),
        expand: Some(vec![ResponseExpand::Route, ResponseExpand::Run]),
        ..Default::default()
    };
    assert_eq!(make().to_query_string(), make().to_query_string());
}

#[test]
fn non_ascii_text_is_encoded_byte_by_byte() {
    let bag = vec![QueryParam {
        name: "q".to_string(),
        value: QueryValue::Text("caf\u{e9}".to_string()),
    }];
    assert_eq!(encode_query(&bag).as_str(), "q=caf%C3%A9");
}
