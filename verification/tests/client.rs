use std::cell::RefCell;

use mapquest::geocode::geocode_url;
use mapquest::geocode::reverse_geocode_url;
use mapquest::Client;
use mapquest::DecodeError;
use mapquest::Error;
use mapquest::Transport;

/// A transport stub: records each request and answers with a fixed body.
struct StubTransport {
    reply: Result<String, String>,
    calls: RefCell<Vec<(String, Vec<(String, String)>)>>,
}

impl StubTransport {
    fn returning(reply: Result<String, String>) -> StubTransport {
        StubTransport {
            reply,
            calls: RefCell::new(Vec::new()),
        }
    }
}

impl Transport for StubTransport {
    fn send(&self, url: &str, query: &Vec<(String, String)>) -> Result<String, String> {
        self.calls
            .borrow_mut()
            .push((url.to_string(), query.clone()));
        self.reply.clone()
    }
}

const CANNED_GEOCODE_BODY: &str = r#"{
    "info": {"status_code": 0, "messages": []},
    "options": {"maxResults": 1, "thumbMaps": false, "ignoreLatLngInput": false},
    "results": [
        {
            "providedLocation": {"location": "1600 Amphitheatre Parkway, Mountain View, CA"},
            "locations": [
                {
                    "street": "1600 Amphitheatre Pkwy",
                    "adminArea6": "",
                    "adminArea5": "Mountain View",
                    "adminArea4": "Santa Clara County",
                    "adminArea3": "CA",
                    "adminArea1": "US",
                    "type": "s",
                    "dragPoint": false,
                    "displayLatLng": {"lat": 37.4224, "lng": -122.0841},
                    "sideOfStreet": "n",
                    "geocodeQualityCode": "P1AAA",
                    "geocodeQuality": "POINT",
                    "linkId": "0"
                }
            ]
        }
    ]
}"#;

const CANNED_REVERSE_BODY: &str = r#"{
    "info": {"status_code": 0, "messages": []},
    "options": {"maxResults": 1, "thumbMaps": false, "ignoreLatLngInput": true},
    "results": [
        {
            "providedLocation": {"lat": 37.4224, "lng": -122.0841},
            "locations": []
        }
    ]
}"#;

#[test]
fn geocode_echoes_the_submitted_address() {
    let address = "1600 Amphitheatre Parkway, Mountain View, CA";
    let client = Client::new(
        "KEY".to_string(),
        StubTransport::returning(Ok(CANNED_GEOCODE_BODY.to_string())),
    );

    let resp = client.geocode(address).expect("canned body must decode");

    assert_eq!(resp.results.len(), 1);
    assert_eq!(resp.results[0].provided_location.location, address);

    let calls = client.transport.calls.borrow();
    assert_eq!(calls.len(), 1);
    assert_eq!(calls[0].0, geocode_url());
    assert_eq!(
        calls[0].1,
        vec![
            ("key".to_string(), "KEY".to_string()),
            ("location".to_string(), address.to_string()),
        ]
    );
}

#[test]
fn reverse_geocode_joins_the_coordinates_with_a_comma() {
    let client = Client::new(
        "KEY".to_string(),
        StubTransport::returning(Ok(CANNED_REVERSE_BODY.to_string())),
    );

    let lat = format!("{}", 37.4224_f32);
    let lng = format!("{}", -122.0841_f32);
    let resp = client
        .reverse_geocode(&lat, &lng)
        .expect("canned body must decode");
    assert_eq!(resp.results.len(), 1);

    let calls = client.transport.calls.borrow();
    assert_eq!(calls.len(), 1);
    assert_eq!(calls[0].0, reverse_geocode_url());
    assert_eq!(
        calls[0].1,
        vec![
            ("key".to_string(), "KEY".to_string()),
            ("location".to_string(), "37.4224,-122.0841".to_string()),
        ]
    );
}

#[test]
fn transport_failure_surfaces_unchanged() {
    let client = Client::new(
        "KEY".to_string(),
        StubTransport::returning(Err("connection refused".to_string())),
    );
    assert_eq!(
        client.geocode("anywhere"),
        Err(Error::Transport("connection refused".to_string()))
    );
}

#[test]
fn malformed_body_surfaces_as_decode_error() {
    let client = Client::new(
        "KEY".to_string(),
        StubTransport::returning(Ok("<html>gateway error</html>".to_string())),
    );
    assert_eq!(
        client.geocode("anywhere"),
        Err(Error::Decode(DecodeError::Syntax))
    );
    assert_eq!(
        client.reverse_geocode("1", "2"),
        Err(Error::Decode(DecodeError::Syntax))
    );
}
