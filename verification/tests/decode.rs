use mapquest::geocode::decode_geocode_body;
use mapquest::geocode::decode_reverse_body;
use mapquest::geocode::location_type_from_code;
use mapquest::geocode::side_of_street_from_code;
use mapquest::DecodeError;
use mapquest::LocationType;
use mapquest::SideOfStreet;

#[test]
fn location_type_codes() {
    assert_eq!(location_type_from_code("s"), Ok(LocationType::Stop));
    assert_eq!(location_type_from_code("v"), Ok(LocationType::Via));
    assert_eq!(
        location_type_from_code("x"),
        Err(DecodeError::UnknownCode("x".to_string()))
    );
    assert_eq!(
        location_type_from_code(""),
        Err(DecodeError::UnknownCode("".to_string()))
    );
    assert_eq!(
        location_type_from_code("sv"),
        Err(DecodeError::UnknownCode("sv".to_string()))
    );
}

#[test]
fn side_of_street_codes() {
    assert_eq!(side_of_street_from_code("l"), Ok(SideOfStreet::Left));
    assert_eq!(side_of_street_from_code("r"), Ok(SideOfStreet::Right));
    assert_eq!(side_of_street_from_code("m"), Ok(SideOfStreet::Mixed));
    assert_eq!(side_of_street_from_code("n"), Ok(SideOfStreet::NoSide));
    assert_eq!(
        side_of_street_from_code("q"),
        Err(DecodeError::UnknownCode("q".to_string()))
    );
}

fn full_body() -> String {
    r#"{
        "info": {"status_code": 0, "messages": ["fine"]},
        "options": {"maxResults": 5, "thumbMaps": true, "ignoreLatLngInput": false},
        "results": [
            {
                "providedLocation": {"location": "1600 Amphitheatre Parkway, Mountain View, CA"},
                "locations": [
                    {
                        "street": "1600 Amphitheatre Pkwy",
                        "adminArea6": "North Whisman",
                        "adminArea5": "Mountain View",
                        "adminArea4": "Santa Clara County",
                        "adminArea3": "CA",
                        "adminArea1": "US",
                        "type": "s",
                        "dragPoint": false,
                        "displayLatLng": {"lat": 37.4224, "lng": -122.0841},
                        "sideOfStreet": "l",
                        "geocodeQualityCode": "P1AAA",
                        "geocodeQuality": "POINT",
                        "linkId": "12345"
                    }
                ]
            }
        ]
    }"#
    .to_string()
}

#[test]
fn round_trip_single_result() {
    let resp = decode_geocode_body(&full_body()).expect("well-formed body must decode");

    assert_eq!(resp.info.status_code, 0);
    assert_eq!(resp.info.messages, vec!["fine".to_string()]);
    assert_eq!(resp.options.max_results, 5);
    assert!(resp.options.thumb_maps);
    assert!(!resp.options.ignore_lat_lng_input);

    assert_eq!(resp.results.len(), 1);
    let result = &resp.results[0];
    assert_eq!(
        result.provided_location.location,
        "1600 Amphitheatre Parkway, Mountain View, CA"
    );
    assert_eq!(result.locations.len(), 1);
    let loc = &result.locations[0];
    assert_eq!(loc.street, "1600 Amphitheatre Pkwy");
    assert_eq!(loc.admin_area_6, "North Whisman");
    assert_eq!(loc.admin_area_5, "Mountain View");
    assert_eq!(loc.admin_area_4, "Santa Clara County");
    assert_eq!(loc.admin_area_3, "CA");
    assert_eq!(loc.admin_area_1, "US");
    assert_eq!(loc.location_type, LocationType::Stop);
    assert!(!loc.drag_point);
    assert_eq!(loc.display_lat_lng.lat, "37.4224");
    assert_eq!(loc.display_lat_lng.lng, "-122.0841");
    assert_eq!(loc.side_of_street, SideOfStreet::Left);
    assert_eq!(loc.geocode_quality_code, "P1AAA");
    assert_eq!(loc.geocode_quality, "POINT");
    assert_eq!(loc.link_id, "12345");
}

#[test]
fn results_order_is_preserved() {
    let body = r#"{
        "info": {"status_code": 0, "messages": []},
        "options": {"maxResults": 2, "thumbMaps": false, "ignoreLatLngInput": false},
        "results": [
            {"providedLocation": {"location": "first"}, "locations": []},
            {"providedLocation": {"location": "second"}, "locations": []}
        ]
    }"#;
    let resp = decode_geocode_body(body).expect("body must decode");
    assert_eq!(resp.results.len(), 2);
    assert_eq!(resp.results[0].provided_location.location, "first");
    assert_eq!(resp.results[1].provided_location.location, "second");
}

#[test]
fn empty_results_decode_to_empty_sequence() {
    let body = r#"{
        "info": {"status_code": 0, "messages": []},
        "options": {"maxResults": 1, "thumbMaps": false, "ignoreLatLngInput": false},
        "results": []
    }"#;
    let resp = decode_geocode_body(body).expect("empty results are not an error");
    assert_eq!(resp.results.len(), 0);
    assert_eq!(resp.info.messages.len(), 0);
}

#[test]
fn missing_link_id_is_decode_error() {
    let body = full_body().replace(r#""linkId": "12345""#, r#""otherId": "12345""#);
    assert_eq!(
        decode_geocode_body(&body),
        Err(DecodeError::Field("linkId".to_string()))
    );
}

#[test]
fn missing_info_is_decode_error() {
    let body = r#"{"options": {"maxResults": 1, "thumbMaps": false, "ignoreLatLngInput": false}, "results": []}"#;
    assert_eq!(
        decode_geocode_body(body),
        Err(DecodeError::Field("info".to_string()))
    );
}

#[test]
fn invalid_json_is_syntax_error() {
    assert_eq!(decode_geocode_body("not json"), Err(DecodeError::Syntax));
    assert_eq!(decode_geocode_body(""), Err(DecodeError::Syntax));
}

#[test]
fn unknown_code_in_body_names_the_value() {
    let body = full_body().replace(r#""type": "s""#, r#""type": "z""#);
    assert_eq!(
        decode_geocode_body(&body),
        Err(DecodeError::UnknownCode("z".to_string()))
    );
    let body = full_body().replace(r#""sideOfStreet": "l""#, r#""sideOfStreet": "left""#);
    assert_eq!(
        decode_geocode_body(&body),
        Err(DecodeError::UnknownCode("left".to_string()))
    );
}

#[test]
fn status_code_must_be_an_unsigned_decimal() {
    let wrong_type = full_body().replace(r#""status_code": 0"#, r#""status_code": "0""#);
    assert_eq!(
        decode_geocode_body(&wrong_type),
        Err(DecodeError::Field("status_code".to_string()))
    );
    let fractional = full_body().replace(r#""status_code": 0"#, r#""status_code": 2.5"#);
    assert_eq!(
        decode_geocode_body(&fractional),
        Err(DecodeError::Field("status_code".to_string()))
    );
    let negative = full_body().replace(r#""status_code": 0"#, r#""status_code": -1"#);
    assert_eq!(
        decode_geocode_body(&negative),
        Err(DecodeError::Field("status_code".to_string()))
    );
    let too_large = full_body().replace(r#""status_code": 0"#, r#""status_code": 4294967296"#);
    assert_eq!(
        decode_geocode_body(&too_large),
        Err(DecodeError::Field("status_code".to_string()))
    );
    let at_max = full_body().replace(r#""status_code": 0"#, r#""status_code": 4294967295"#);
    let resp = decode_geocode_body(&at_max).expect("the largest status code fits");
    assert_eq!(resp.info.status_code, 4294967295);
}

#[test]
fn message_elements_must_be_strings() {
    let body = full_body().replace(r#""messages": ["fine"]"#, r#""messages": ["fine", 3]"#);
    assert_eq!(
        decode_geocode_body(&body),
        Err(DecodeError::Field("messages".to_string()))
    );
}

#[test]
fn option_flags_must_be_booleans() {
    let body = full_body().replace(r#""thumbMaps": true"#, r#""thumbMaps": "yes""#);
    assert_eq!(
        decode_geocode_body(&body),
        Err(DecodeError::Field("thumbMaps".to_string()))
    );
}

#[test]
fn reverse_body_echoes_the_coordinate() {
    let body = r#"{
        "info": {"status_code": 0, "messages": []},
        "options": {"maxResults": 1, "thumbMaps": false, "ignoreLatLngInput": true},
        "results": [
            {
                "providedLocation": {"lat": 37.4224, "lng": -122.0841},
                "locations": []
            }
        ]
    }"#;
    let resp = decode_reverse_body(body).expect("reverse body must decode");
    assert_eq!(resp.results.len(), 1);
    assert_eq!(resp.results[0].provided_location.lat, "37.4224");
    assert_eq!(resp.results[0].provided_location.lng, "-122.0841");
    assert_eq!(resp.results[0].locations.len(), 0);
    assert!(resp.options.ignore_lat_lng_input);
}

#[test]
fn reverse_provided_location_must_hold_numbers() {
    let body = r#"{
        "info": {"status_code": 0, "messages": []},
        "options": {"maxResults": 1, "thumbMaps": false, "ignoreLatLngInput": true},
        "results": [
            {
                "providedLocation": {"lat": "37.4224", "lng": -122.0841},
                "locations": []
            }
        ]
    }"#;
    assert_eq!(
        decode_reverse_body(body),
        Err(DecodeError::Field("lat".to_string()))
    );
}
