use http_request::http::{HttpMethod, HttpRequest, HttpResponse, RequestError};

#[test]
fn test_add_header() {
    let mut request = HttpRequest::new(HttpMethod::Get, "https://httpbin.org/get");
    request.add_header("User-Agent", "http-request");
    assert_eq!(request.headers.len(), 1);
}

#[test]
fn test_set_body() {
    let mut request = HttpRequest::new(HttpMethod::Post, "https://httpbin.org/post");
    request.set_body("Hello, world!");
    assert_eq!(request.body, Some("Hello, world!".to_string()));
}

#[test]
fn test_from_str() {
    assert_eq!(HttpMethod::from_str("GET"), Some(HttpMethod::Get));
    assert_eq!(HttpMethod::from_str("POST"), Some(HttpMethod::Post));
    assert_eq!(HttpMethod::from_str("PUT"), Some(HttpMethod::Put));
    assert_eq!(HttpMethod::from_str("DELETE"), Some(HttpMethod::Delete));
    assert_eq!(HttpMethod::from_str("INVALID"), None);
}

#[test]
fn test_to_string() {
    assert_eq!(HttpMethod::Get.to_string(), "GET".to_string());
    assert_eq!(HttpMethod::Post.to_string(), "POST".to_string());
    assert_eq!(HttpMethod::Put.to_string(), "PUT".to_string());
    assert_eq!(HttpMethod::Delete.to_string(), "DELETE".to_string());
}

#[test]
fn from_str_is_exact() {
    assert_eq!(HttpMethod::from_str("get"), None);
    assert_eq!(HttpMethod::from_str("GETS"), None);
    assert_eq!(HttpMethod::from_str(""), None);
}

#[test]
fn new_request_has_no_headers_or_body() {
    let request = HttpRequest::new(HttpMethod::Put, "http://x");
    assert_eq!(request.method, HttpMethod::Put);
    assert_eq!(request.url, "http://x");
    assert!(request.headers.is_empty());
    assert_eq!(request.body, None);
}

#[test]
fn headers_keep_their_order() {
    let mut request = HttpRequest::new(HttpMethod::Get, "http://x");
    request.add_header("A", "1");
    request.add_header("B", "2");
    assert_eq!(
        request.headers,
        vec![
            ("A".to_string(), "1".to_string()),
            ("B".to_string(), "2".to_string())
        ]
    );
}

#[test]
fn set_body_replaces_the_body() {
    let mut request = HttpRequest::new(HttpMethod::Post, "http://x");
    request.set_body("first");
    request.set_body("second");
    assert_eq!(request.body, Some("second".to_string()));
}

#[test]
fn validate_accepts_a_well_formed_request() {
    let mut request = HttpRequest::new(HttpMethod::Get, "https://httpbin.org/get");
    request.add_header("User-Agent", "http-request");
    request.add_header("X-Tab", "a\tb");
    assert_eq!(request.validate(), Ok(()));
}

#[test]
fn validate_rejects_a_relative_url() {
    let request = HttpRequest::new(HttpMethod::Get, "httpbin.org/get");
    assert_eq!(request.validate(), Err(RequestError::InvalidUrl));
}

#[test]
fn validate_rejects_an_empty_url() {
    let request = HttpRequest::new(HttpMethod::Get, "");
    assert_eq!(request.validate(), Err(RequestError::InvalidUrl));
}

#[test]
fn validate_checks_the_url_before_headers() {
    let mut request = HttpRequest::new(HttpMethod::Get, "not a url");
    request.add_header("bad name", "v");
    assert_eq!(request.validate(), Err(RequestError::InvalidUrl));
}

#[test]
fn validate_rejects_a_header_name_with_a_space() {
    let mut request = HttpRequest::new(HttpMethod::Get, "http://x");
    request.add_header("Accept", "*/*");
    request.add_header("Bad Name", "v");
    assert_eq!(request.validate(), Err(RequestError::InvalidHeaderName(1)));
}

#[test]
fn validate_rejects_an_empty_or_non_ascii_header_name() {
    let mut request = HttpRequest::new(HttpMethod::Get, "http://x");
    request.add_header("", "v");
    assert_eq!(request.validate(), Err(RequestError::InvalidHeaderName(0)));
    let mut request = HttpRequest::new(HttpMethod::Get, "http://x");
    request.add_header("nämé", "v");
    assert_eq!(request.validate(), Err(RequestError::InvalidHeaderName(0)));
}

#[test]
fn validate_rejects_a_header_value_with_a_newline() {
    let mut request = HttpRequest::new(HttpMethod::Get, "http://x");
    request.add_header("X-One", "ok");
    request.add_header("X-Two", "line\nbreak");
    assert_eq!(request.validate(), Err(RequestError::InvalidHeaderValue(1)));
}

#[test]
fn validate_accepts_non_ascii_header_values() {
    let mut request = HttpRequest::new(HttpMethod::Get, "http://x");
    request.add_header("X-Name", "Zoë");
    assert_eq!(request.validate(), Ok(()));
}

#[test]
fn validate_reports_the_name_before_the_value() {
    let mut request = HttpRequest::new(HttpMethod::Get, "http://x");
    request.add_header("a b", "\u{7f}");
    assert_eq!(request.validate(), Err(RequestError::InvalidHeaderName(0)));
}

#[test]
fn new_response_is_empty() {
    let response = HttpResponse::new();
    assert_eq!(response.status_code, 0);
    assert!(response.headers.is_empty());
    assert!(response.body.is_empty());
}
