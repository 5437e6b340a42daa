use std::collections::BTreeMap;

use rest_client::{
    decode_response, interpret_transport_result, Method, RestClient, RestClientError,
    TransportFailure,
};

fn built(url: &str) -> RestClient {
    match RestClient::new(url) {
        Ok(c) => c,
        Err(e) => panic!("construction failed: {}", e.to_display_string()),
    }
}

#[test]
fn post_encodes_body() {
    let c = built("https://api.example.com");
    let mut data: BTreeMap<String, i64> = BTreeMap::new();
    data.insert(String::from("k"), 1);
    let req = match c.prepare_post("/items", None, Some(data), None, None) {
        Ok(req) => req,
        Err(e) => panic!("preparation failed: {}", e.to_display_string()),
    };
    assert_eq!(req.method, Method::Post);
    assert_eq!(req.body, Some(String::from("{\"k\":1}")));
}

#[test]
fn put_without_body_succeeds() {
    let c = built("https://api.example.com");
    let req = match c.prepare_put::<()>("/items/1", None, None, None, None) {
        Ok(req) => req,
        Err(e) => panic!("preparation failed: {}", e.to_display_string()),
    };
    assert_eq!(req.method, Method::Put);
    assert!(req.body.is_none());
}

#[test]
fn non_serializable_body_fails_before_transport() {
    let c = built("https://api.example.com");
    let mut data: BTreeMap<Vec<u8>, u8> = BTreeMap::new();
    data.insert(vec![1, 2], 3);
    match c.prepare_post("/items", None, Some(data), None, None) {
        Ok(_) => panic!("non-serializable body accepted"),
        Err(e) => {
            assert!(matches!(e, RestClientError::SerializationError(_)));
            assert_eq!(e.code(), 500);
            assert_eq!(e.msgid(), "Err-31807");
            assert!(e.extra().is_none());
            assert!(!e.message().is_empty());
        }
    }
}

#[test]
fn encode_then_decode_round_trips() {
    let c = built("https://api.example.com");
    let mut data: BTreeMap<String, i64> = BTreeMap::new();
    data.insert(String::from("a"), 1);
    data.insert(String::from("b"), -2);
    let req = match c.prepare_put("/items/1", None, Some(data.clone()), None, None) {
        Ok(req) => req,
        Err(e) => panic!("preparation failed: {}", e.to_display_string()),
    };
    let body = req.body.expect("body missing");
    let back: BTreeMap<String, i64> = match decode_response(body.as_str()) {
        Ok(v) => v,
        Err(e) => panic!("decode failed: {}", e.to_display_string()),
    };
    assert_eq!(back, data);
}

#[test]
fn invalid_json_response_fails_with_serialization_error() {
    let r: Result<serde_json::Value, RestClientError> = decode_response("not json");
    match r {
        Ok(_) => panic!("invalid JSON accepted"),
        Err(e) => {
            assert!(matches!(e, RestClientError::SerializationError(_)));
            assert_eq!(e.code(), 500);
            assert_eq!(e.msgid(), "Err-31807");
        }
    }
}

#[test]
fn mistyped_json_response_fails_with_serialization_error() {
    let r: Result<BTreeMap<String, i64>, RestClientError> =
        interpret_transport_result(Ok(String::from("{\"a\":\"not a number\"}")));
    assert!(matches!(r, Err(RestClientError::SerializationError(_))));
}

#[test]
fn transport_failure_passes_through_unchanged() {
    let failure = TransportFailure {
        code: 503,
        msgid: String::from("Err-18979"),
        message: String::from("Service Unavailable"),
        extra: None,
    };
    let r: Result<serde_json::Value, RestClientError> = interpret_transport_result(Err(failure));
    match r {
        Ok(_) => panic!("transport failure ignored"),
        Err(e) => {
            assert!(matches!(e, RestClientError::TransportError(_)));
            assert_eq!(e.code(), 503);
            assert_eq!(e.msgid(), "Err-18979");
            assert_eq!(e.message(), "Service Unavailable");
        }
    }
}

#[test]
fn post_decodes_created_resource() {
    let c = built("https://api.example.com");
    let mut data: BTreeMap<String, serde_json::Value> = BTreeMap::new();
    data.insert(String::from("name"), serde_json::Value::from("a"));
    let req = match c.prepare_post("/users", None, Some(data), None, None) {
        Ok(req) => req,
        Err(e) => panic!("preparation failed: {}", e.to_display_string()),
    };
    assert_eq!(req.body, Some(String::from("{\"name\":\"a\"}")));
    let outcome = Ok(String::from("{\"id\":1,\"name\":\"a\"}"));
    let decoded: BTreeMap<String, serde_json::Value> = match interpret_transport_result(outcome) {
        Ok(v) => v,
        Err(e) => panic!("decode failed: {}", e.to_display_string()),
    };
    assert_eq!(decoded.get("id"), Some(&serde_json::Value::from(1)));
    assert_eq!(decoded.get("name"), Some(&serde_json::Value::from("a")));
}
