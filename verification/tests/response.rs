use api_client::build_response;
use api_client::conclude;
use api_client::response::collect_headers;
use api_client::response::REQUEST_TIMEOUT_SECS;
use api_client::HttpClientError;
use api_client::TransportOutcome;
use reqwest::header::HeaderMap;
use reqwest::header::HeaderName;
use reqwest::header::HeaderValue;

fn name(text: &str) -> HeaderName {
    HeaderName::from_bytes(text.as_bytes()).unwrap()
}

fn value(bytes: &[u8]) -> HeaderValue {
    HeaderValue::from_bytes(bytes).unwrap()
}

fn pair(name: &str, value: &str) -> (String, String) {
    (name.to_string(), value.to_string())
}

fn sorted(mut pairs: Vec<(String, String)>) -> Vec<(String, String)> {
    pairs.sort();
    pairs
}

#[test]
fn response_headers_are_collected_as_text() {
    let mut headers = HeaderMap::new();
    headers.insert(name("content-type"), value(b"application/json"));
    headers.insert(name("X-Request-Id"), value(b"abc 123"));
    let pairs = sorted(collect_headers(&headers));
    assert_eq!(pairs, vec![pair("content-type", "application/json"), pair("x-request-id", "abc 123")]);
}

#[test]
fn no_headers_give_no_pairs() {
    assert!(collect_headers(&HeaderMap::new()).is_empty());
}

#[test]
fn duplicate_header_names_collapse_to_the_last_value() {
    let mut headers = HeaderMap::new();
    headers.append(name("set-cookie"), value(b"a=1"));
    headers.append(name("x-other"), value(b"o"));
    headers.append(name("set-cookie"), value(b"b=2"));
    headers.append(name("set-cookie"), value(b"c=3"));
    let pairs = sorted(collect_headers(&headers));
    assert_eq!(pairs, vec![pair("set-cookie", "c=3"), pair("x-other", "o")]);
}

#[test]
fn header_value_that_is_not_text_is_dropped() {
    let mut headers = HeaderMap::new();
    headers.insert(name("x-text"), value(b"fine"));
    headers.insert(name("x-bytes"), value(b"caf\xc3\xa9"));
    headers.insert(name("x-high"), value(b"\xff"));
    let pairs = collect_headers(&headers);
    assert_eq!(pairs, vec![pair("x-text", "fine")]);
}

#[test]
fn value_that_is_not_text_does_not_replace_one_that_is() {
    let mut headers = HeaderMap::new();
    headers.append(name("x-a"), value(b"first"));
    headers.append(name("x-a"), value(b"second"));
    headers.append(name("x-a"), value(b"\x80"));
    let pairs = collect_headers(&headers);
    assert_eq!(pairs, vec![pair("x-a", "second")]);
}

#[test]
fn tab_is_text_in_a_header_value() {
    let mut headers = HeaderMap::new();
    headers.insert(name("x-tab"), value(b"a\tb"));
    headers.insert(name("x-empty"), value(b""));
    let pairs = sorted(collect_headers(&headers));
    assert_eq!(pairs, vec![pair("x-empty", ""), pair("x-tab", "a\tb")]);
}

#[test]
fn response_is_built_from_what_was_received() {
    let mut headers = HeaderMap::new();
    headers.insert(name("content-type"), value(b"application/json"));
    let response = build_response(200, "200 OK".to_string(), &headers, "{\"a\":1}", 50);
    assert_eq!(response.status_code, 200);
    assert_eq!(response.status, "200 OK");
    assert_eq!(response.headers, vec![pair("content-type", "application/json")]);
    assert_eq!(response.body, "{\n  \"a\": 1\n}");
    assert_eq!(response.response_time_ms, 50);
    assert_eq!(response.error, None);
}

#[test]
fn body_that_is_no_json_is_reported_raw() {
    let response = build_response(404, "404 Not Found".to_string(), &HeaderMap::new(), "plain text", 7);
    assert_eq!(response.status_code, 404);
    assert_eq!(response.status, "404 Not Found");
    assert_eq!(response.body, "plain text");
    assert!(response.headers.is_empty());
}

#[test]
fn response_time_is_whole_milliseconds_in_32_bits() {
    let headers = HeaderMap::new();
    assert_eq!(build_response(200, String::new(), &headers, "", 0).response_time_ms, 0);
    assert_eq!(build_response(200, String::new(), &headers, "", 29_999).response_time_ms, 29_999);
    assert_eq!(
        build_response(200, String::new(), &headers, "", 4_294_967_295).response_time_ms,
        4_294_967_295
    );
    assert_eq!(build_response(200, String::new(), &headers, "", 4_294_967_296).response_time_ms, 0);
    assert_eq!(build_response(200, String::new(), &headers, "", 4_294_967_301).response_time_ms, 5);
    assert_eq!(build_response(200, String::new(), &headers, "", u128::MAX).response_time_ms, u32::MAX);
}

#[test]
fn failure_to_send_is_a_request_error() {
    let r = conclude(TransportOutcome::SendFailed("connection refused".to_string()));
    assert_eq!(r, Err(HttpClientError::RequestError("connection refused".to_string())));
}

#[test]
fn failure_to_read_the_body_is_told_by_its_prefix() {
    let r = conclude(TransportOutcome::BodyFailed("unexpected end of stream".to_string()));
    assert_eq!(
        r,
        Err(HttpClientError::RequestError(
            "Failed to read body: unexpected end of stream".to_string()
        ))
    );
}

#[test]
fn completed_round_trip_gives_a_response() {
    let mut headers = HeaderMap::new();
    headers.append(name("via"), value(b"1.1 a"));
    headers.append(name("via"), value(b"1.1 b"));
    let r = conclude(TransportOutcome::Completed {
        status_code: 201,
        status: "201 Created".to_string(),
        headers,
        body: "[1,2]".to_string(),
        elapsed_millis: 1234,
    });
    let response = r.unwrap();
    assert_eq!(response.status_code, 201);
    assert_eq!(response.status, "201 Created");
    assert_eq!(response.headers, vec![pair("via", "1.1 b")]);
    assert_eq!(response.body, "[\n  1,\n  2\n]");
    assert_eq!(response.response_time_ms, 1234);
    assert_eq!(response.error, None);
}

#[test]
fn errors_are_displayed_with_their_kind() {
    assert_eq!(
        HttpClientError::RequestError("timed out".to_string()).to_string(),
        "Request failed: timed out"
    );
    assert_eq!(
        HttpClientError::InvalidUrl("URL is required".to_string()).to_string(),
        "Invalid URL: URL is required"
    );
    assert_eq!(
        HttpClientError::InvalidHeader("a b: invalid HTTP header name".to_string()).to_string(),
        "Invalid header: a b: invalid HTTP header name"
    );
}

#[test]
fn timeout_is_thirty_seconds() {
    assert_eq!(REQUEST_TIMEOUT_SECS, 30);
}
