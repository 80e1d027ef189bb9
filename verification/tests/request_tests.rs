use std::collections::HashMap;
use std::sync::Arc;

use tide::body::Body;
use tide::cookies::CookieData;
use tide::error::Error;
use tide::request::Request;

fn params_from(pairs: &[(&str, &str)]) -> route_recognizer::Params {
    let mut params = route_recognizer::Params::new();
    for (key, value) in pairs {
        params.insert(key.to_string(), value.to_string());
    }
    params
}

fn request_with(
    query: Option<&str>,
    route_params: Vec<route_recognizer::Params>,
) -> Request<&'static str> {
    let mut headers = http::HeaderMap::new();
    headers.insert("x-forwarded-for", http::HeaderValue::from_static("127.0.0.1"));
    Request::new(
        Arc::new("app state"),
        http::Method::GET,
        "/users/42".parse::<http::Uri>().unwrap(),
        http::Version::HTTP_11,
        headers,
        query.map(str::to_string),
        Body::empty(),
        route_params,
    )
}

#[test]
fn metadata_accessors_return_raw_fields() {
    let req = request_with(None, Vec::new());
    assert_eq!(req.method(), &http::Method::GET);
    assert_eq!(req.uri(), &"/users/42".parse::<http::Uri>().unwrap());
    assert_eq!(req.version(), http::Version::HTTP_11);
    assert_eq!(req.headers().len(), 1);
    assert_eq!(*req.state(), "app state");
}

#[test]
fn header_returns_first_text_value() {
    let req = request_with(None, Vec::new());
    assert_eq!(req.header("x-forwarded-for").as_deref(), Some("127.0.0.1"));
    assert_eq!(req.header("X-Forwarded-For").as_deref(), Some("127.0.0.1"));
    assert_eq!(req.header("x-missing"), None);
}

#[test]
fn header_value_not_text_reads_as_absent() {
    let mut headers = http::HeaderMap::new();
    headers.insert("x-bin", http::HeaderValue::from_bytes(&[0xff, 0xfe]).unwrap());
    let req = Request::new(
        Arc::new("app state"),
        http::Method::GET,
        "/".parse::<http::Uri>().unwrap(),
        http::Version::HTTP_11,
        headers,
        None,
        Body::empty(),
        Vec::new(),
    );
    assert_eq!(req.header("x-bin"), None);
}

#[test]
fn param_parses_declared_parameter() {
    let req = request_with(None, vec![params_from(&[("id", "42")])]);
    let id: u32 = req.param("id").unwrap();
    assert_eq!(id, 42);
}

#[test]
fn param_reports_unparseable_value() {
    let req = request_with(None, vec![params_from(&[("id", "abc")])]);
    let id: Result<u32, Error> = req.param("id");
    assert!(matches!(id, Err(Error::Param)));
}

#[test]
fn inner_router_binding_shadows_outer() {
    let outer = params_from(&[("id", "1"), ("outer_only", "o")]);
    let inner = params_from(&[("id", "2")]);
    let req = request_with(None, vec![outer, inner]);
    assert_eq!(req.param_value("id").as_deref(), Some("2"));
    let id: u32 = req.param("id").unwrap();
    assert_eq!(id, 2);
    assert_eq!(req.param_value("outer_only").as_deref(), Some("o"));
    assert_eq!(req.param_value("absent"), None);
}

#[test]
fn rest_reads_innermost_wildcard_remainder() {
    let inner = params_from(&[("--tide-path-rest", "a/b/c")]);
    let req = request_with(None, vec![params_from(&[("id", "1")]), inner]);
    assert_eq!(req.rest().as_deref(), Some("a/b/c"));
    let bare = request_with(None, Vec::new());
    assert_eq!(bare.rest(), None);
}

#[test]
fn query_decodes_pairs() {
    let req = request_with(Some("name=alice&role=admin"), Vec::new());
    let decoded: HashMap<String, String> = req.query().unwrap();
    assert_eq!(decoded.get("name").map(String::as_str), Some("alice"));
    assert_eq!(decoded.get("role").map(String::as_str), Some("admin"));
}

#[test]
fn query_missing_decodes_as_empty() {
    let req = request_with(None, Vec::new());
    let decoded: HashMap<String, String> = req.query().unwrap();
    assert!(decoded.is_empty());
}

#[test]
fn query_failure_builds_client_error_response() {
    let req = request_with(Some("count=abc"), Vec::new());
    let decoded: Result<HashMap<String, u32>, Error> = req.query();
    match decoded {
        Err(Error::BadQuery(response)) => {
            assert_eq!(response.status, 400);
            assert!(!response.body.is_empty());
        }
        other => panic!("expected a query error, got {:?}", other.is_ok()),
    }
}

#[test]
fn set_local_stores_and_overwrites_by_type() {
    let req = request_with(None, Vec::new());
    assert_eq!(req.local::<u32>(), None);
    let req = req.set_local(7u32);
    assert_eq!(req.local::<u32>(), Some(&7));
    let req = req.set_local(9u32);
    assert_eq!(req.local::<u32>(), Some(&9));
    let req = req.set_local("hello".to_string());
    assert_eq!(req.local::<u32>(), Some(&9));
    assert_eq!(req.local::<String>().map(String::as_str), Some("hello"));
}

#[test]
fn cookie_lookup_finds_present_and_misses_absent() {
    let mut jar = cookie::CookieJar::new();
    jar.add(("session", "abc123"));
    let req = request_with(None, Vec::new()).set_cookie_data(CookieData::new(jar));
    let found = req.cookie("session").unwrap().unwrap();
    assert_eq!(found.name, "session");
    assert_eq!(found.value, "abc123");
    assert!(req.cookie("absent").unwrap().is_none());
}

#[test]
fn cookie_data_is_shareable_across_readers() {
    let mut jar = cookie::CookieJar::new();
    jar.add(("token", "t0"));
    let data = CookieData::new(jar);
    let other = data.clone();
    for _ in 0..10 {
        assert_eq!(data.get("token").unwrap().value, "t0");
        assert_eq!(other.get("token").unwrap().value, "t0");
    }
}

#[test]
fn response_builder_sets_status_and_body() {
    let response = tide::error::Response::new(400).body_string("bad".to_string());
    assert_eq!(response.status, 400);
    assert_eq!(response.body, "bad");
}
