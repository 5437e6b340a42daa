use rest_client::{
    lookup_header, strip_trailing_slashes, Authentication, Method, RestClient, RestClientError,
};

fn built(url: &str) -> RestClient {
    match RestClient::new(url) {
        Ok(c) => c,
        Err(e) => panic!("construction failed: {}", e.to_display_string()),
    }
}

fn effective<'a>(hs: &'a Vec<(String, String)>, name: &str) -> Option<&'a str> {
    lookup_header(hs, name).map(|s| s.as_str())
}

#[test]
fn strips_one_trailing_slash() {
    assert_eq!(strip_trailing_slashes("https://api.example.com/"), "https://api.example.com");
}

#[test]
fn strips_all_trailing_slashes() {
    assert_eq!(strip_trailing_slashes("https://api.example.com///"), "https://api.example.com");
    assert_eq!(strip_trailing_slashes("no-slash"), "no-slash");
    assert_eq!(strip_trailing_slashes(""), "");
    assert_eq!(strip_trailing_slashes("///"), "");
}

#[test]
fn construction_strips_trailing_slashes() {
    let c = built("https://api.example.com/");
    assert_eq!(c.url_root(), "https://api.example.com");
}

#[test]
fn construction_rejects_invalid_url() {
    let r = RestClient::new("not a url");
    match r {
        Ok(_) => panic!("invalid URL accepted"),
        Err(e) => {
            assert!(matches!(e, RestClientError::TransportError(_)));
            assert_eq!(e.code(), 400);
            assert_eq!(e.msgid(), "Err-27071");
            assert!(e.extra().is_none());
        }
    }
}

#[test]
fn construction_rejects_empty_and_relative_urls() {
    assert!(RestClient::new("").is_err());
    assert!(RestClient::new("///").is_err());
    assert!(RestClient::new("/users/1").is_err());
}

#[test]
fn default_configuration() {
    let c = built("https://api.example.com");
    assert_eq!(c.timeout(), 10);
    assert_eq!(c.headers().len(), 3);
    assert_eq!(effective(c.headers(), "Accept"), Some("application/json"));
    assert_eq!(effective(c.headers(), "Content-Type"), Some("application/json"));
    assert_eq!(effective(c.headers(), "User-Agent"), Some("rest_client/0.1.0"));
    assert!(c.auth().is_none());
}

#[test]
fn get_uses_defaults() {
    let c = built("https://api.example.com/");
    let req = c.prepare_get("/users/1", None, None, None);
    assert_eq!(req.method, Method::Get);
    assert_eq!(req.url, "https://api.example.com/users/1");
    assert_eq!(req.timeout, 10);
    assert!(req.body.is_none());
    assert!(req.params.is_empty());
    assert_eq!(effective(&req.headers, "Accept"), Some("application/json"));
}

#[test]
fn header_override_wins() {
    let c = built("https://api.example.com");
    let overrides = vec![(String::from("Accept"), String::from("text/plain"))];
    let req = c.prepare_get("/users/1", None, Some(overrides), None);
    assert_eq!(effective(&req.headers, "Accept"), Some("text/plain"));
    assert_eq!(effective(&req.headers, "Content-Type"), Some("application/json"));
    assert_eq!(req.headers.len(), 4);
}

#[test]
fn timeout_override_wins() {
    let c = built("https://api.example.com");
    let req = c.prepare_get("/users/1", None, None, Some(3));
    assert_eq!(req.timeout, 3);
    let c = c.set_timeout(42);
    let req = c.prepare_get("/users/1", None, None, None);
    assert_eq!(req.timeout, 42);
}

#[test]
fn set_headers_appends_without_dedup() {
    let c = built("https://api.example.com");
    let c = c.set_headers(vec![
        (String::from("X-Extra"), String::from("1")),
        (String::from("Accept"), String::from("application/xml")),
    ]);
    assert_eq!(c.headers().len(), 5);
    assert_eq!(effective(c.headers(), "Accept"), Some("application/xml"));
    let req = c.prepare_get("/r", None, None, None);
    assert_eq!(effective(&req.headers, "X-Extra"), Some("1"));
}

#[test]
fn query_params_are_kept() {
    let c = built("https://api.example.com");
    let params = vec![(String::from("page"), String::from("2"))];
    let req = c.prepare_get("/users", Some(params), None, None);
    assert_eq!(req.params.len(), 1);
    assert_eq!(req.params[0].0, "page");
    assert_eq!(req.params[0].1, "2");
}

#[test]
fn delete_carries_no_body() {
    let c = built("https://api.example.com");
    let req = c.prepare_delete("/users/1", None, None, None);
    assert_eq!(req.method, Method::Delete);
    assert!(req.body.is_none());
}

struct BearerAuth;

impl Authentication for BearerAuth {
    fn as_header(&self) -> Option<(String, String)> {
        Some((String::from("Authorization"), String::from("Bearer X")))
    }
}

#[test]
fn auth_header_applied() {
    let c = built("https://api.example.com").set_auth(BearerAuth);
    assert!(c.auth().is_some());
    let req = c.prepare_get("/private", None, None, None);
    assert_eq!(effective(&req.headers, "Authorization"), Some("Bearer X"));
    assert_eq!(req.headers.len(), 4);
}

#[test]
fn auth_replaced_not_stacked() {
    let c = built("https://api.example.com")
        .set_auth(rest_client::NoAuth)
        .set_auth(BearerAuth);
    let req = c.prepare_get("/private", None, None, None);
    assert_eq!(effective(&req.headers, "Authorization"), Some("Bearer X"));
}

#[test]
fn no_auth_contributes_nothing() {
    let c = built("https://api.example.com").set_auth(rest_client::NoAuth);
    let req = c.prepare_get("/r", None, None, None);
    assert_eq!(req.headers.len(), 3);
    assert_eq!(effective(&req.headers, "Authorization"), None);
}
