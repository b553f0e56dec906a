use api_client::header::HEADER_MAP_ROOM;
use api_client::normalize::attach_body;
use api_client::normalize::default_scheme;
use api_client::normalize::fill_headers;
use api_client::normalize::normalize_method;
use api_client::normalize::recognize_method;
use api_client::prepare_request;
use api_client::HttpClientError;
use api_client::HttpHeader;
use api_client::HttpMethod;
use api_client::HttpRequest;
use api_client::PreparedRequest;

fn header(key: &str, value: &str, enabled: bool) -> HttpHeader {
    HttpHeader { key: key.to_string(), value: value.to_string(), enabled }
}

fn request(method: &str, url: &str, headers: Vec<HttpHeader>, body: &str) -> HttpRequest {
    HttpRequest {
        method: method.to_string(),
        url: url.to_string(),
        headers,
        body: body.to_string(),
    }
}

fn ready(method: &str, url: &str, headers: Vec<HttpHeader>, body: &str) -> PreparedRequest {
    match prepare_request(&request(method, url, headers, body)) {
        Some(Ok(prepared)) => prepared,
        Some(Err(e)) => panic!("rejected: {:?}", e),
        None => panic!("refused by the header table"),
    }
}

fn rejected(method: &str, url: &str, headers: Vec<HttpHeader>, body: &str) -> HttpClientError {
    match prepare_request(&request(method, url, headers, body)) {
        Some(Ok(prepared)) => panic!("accepted: {:?}", prepared),
        Some(Err(e)) => e,
        None => panic!("refused by the header table"),
    }
}

fn value_of(prepared: &PreparedRequest, name: &str) -> Option<Vec<u8>> {
    prepared.headers.get(name).map(|v| v.as_bytes().to_vec())
}

#[test]
fn empty_url_is_an_invalid_url() {
    let e = rejected("GET", "", vec![], "");
    assert_eq!(e, HttpClientError::InvalidUrl("URL is required".to_string()));
}

#[test]
fn empty_url_is_rejected_whatever_else_is_given() {
    let headers = vec![header("X-A", "1", true), header("bad name", "1", true)];
    let e = rejected("POST", "", headers, "{\"a\":1}");
    assert_eq!(e, HttpClientError::InvalidUrl("URL is required".to_string()));
}

#[test]
fn url_without_scheme_gets_http() {
    let prepared = ready("GET", "example.com/path?q=1", vec![], "");
    assert_eq!(prepared.url, "http://example.com/path?q=1");
    assert_eq!(default_scheme("localhost:8080"), "http://localhost:8080");
}

#[test]
fn url_with_scheme_is_kept() {
    assert_eq!(ready("GET", "http://example.com", vec![], "").url, "http://example.com");
    assert_eq!(ready("GET", "https://example.com", vec![], "").url, "https://example.com");
    assert_eq!(default_scheme("https://"), "https://");
}

#[test]
fn scheme_is_matched_by_case_and_in_full() {
    assert_eq!(default_scheme("HTTP://example.com"), "http://HTTP://example.com");
    assert_eq!(default_scheme("http:/example.com"), "http://http:/example.com");
    assert_eq!(default_scheme("ftp://example.com"), "http://ftp://example.com");
    assert_eq!(default_scheme(" http://example.com"), "http:// http://example.com");
}

#[test]
fn only_enabled_headers_with_a_key_go_out() {
    let headers = vec![
        header("X-One", "1", true),
        header("X-Two", "2", false),
        header("", "3", true),
        header("", "4", false),
        header("X-Five", "5", true),
    ];
    let prepared = ready("GET", "example.com", headers, "");
    assert_eq!(prepared.headers.len(), 2);
    assert_eq!(value_of(&prepared, "x-one"), Some(b"1".to_vec()));
    assert_eq!(value_of(&prepared, "x-five"), Some(b"5".to_vec()));
    assert_eq!(value_of(&prepared, "x-two"), None);
}

#[test]
fn excluded_headers_are_not_validated() {
    let headers = vec![
        header("bad name", "1", false),
        header("X-Ok", "line\nbreak", false),
        header("", "line\nbreak", true),
    ];
    let prepared = ready("GET", "example.com", headers, "");
    assert!(prepared.headers.is_empty());
}

#[test]
fn header_names_are_lowered() {
    let prepared = ready("GET", "example.com", vec![header("X-Api-TOKEN", "Secret", true)], "");
    let names: Vec<String> = prepared.headers.keys().map(|k| k.as_str().to_string()).collect();
    assert_eq!(names, vec!["x-api-token".to_string()]);
    assert_eq!(value_of(&prepared, "x-api-token"), Some(b"Secret".to_vec()));
}

#[test]
fn last_header_of_a_name_wins() {
    let headers = vec![
        header("Accept", "text/plain", true),
        header("X-Other", "o", true),
        header("ACCEPT", "application/xml", true),
        header("accept", "ignored", false),
    ];
    let prepared = ready("GET", "example.com", headers, "");
    assert_eq!(prepared.headers.len(), 2);
    let all: Vec<Vec<u8>> =
        prepared.headers.get_all("accept").iter().map(|v| v.as_bytes().to_vec()).collect();
    assert_eq!(all, vec![b"application/xml".to_vec()]);
}

#[test]
fn header_value_may_hold_tab_and_non_ascii_text() {
    let prepared = ready("GET", "example.com", vec![header("X-Note", "a\tb é", true)], "");
    assert_eq!(value_of(&prepared, "x-note"), Some("a\tb é".as_bytes().to_vec()));
}

#[test]
fn illegal_header_name_is_rejected() {
    let e = rejected("GET", "example.com", vec![header("bad name", "1", true)], "");
    assert_eq!(
        e,
        HttpClientError::InvalidHeader("bad name: invalid HTTP header name".to_string())
    );
}

#[test]
fn illegal_header_value_is_rejected() {
    let e = rejected("GET", "example.com", vec![header("X-A", "line\nbreak", true)], "");
    assert_eq!(
        e,
        HttpClientError::InvalidHeader("line\nbreak: failed to parse header value".to_string())
    );
}

#[test]
fn header_name_is_validated_before_its_value() {
    let e = rejected("GET", "example.com", vec![header("né", "a\u{7f}", true)], "");
    assert_eq!(e, HttpClientError::InvalidHeader("né: invalid HTTP header name".to_string()));
}

#[test]
fn first_illegal_header_is_reported() {
    let headers = vec![
        header("X-Fine", "1", true),
        header("X-B", "\u{0}", true),
        header("a:b", "2", true),
    ];
    let e = rejected("GET", "example.com", headers, "");
    assert_eq!(
        e,
        HttpClientError::InvalidHeader("\u{0}: failed to parse header value".to_string())
    );
}

#[test]
fn every_token_character_is_a_legal_name() {
    let key = "!#$%&'*+-.^_`|~09azAZ";
    let table = fill_headers(&vec![header(key, "v", true)]).unwrap().unwrap();
    assert!(table.contains_key("!#$%&'*+-.^_`|~09azaz"));
}

#[test]
fn separators_are_not_legal_in_a_name() {
    for bad in ["a b", "a:b", "a(b", "a\"b", "a/b", "a@b", "a[b", "a{b", "a,b", "a;b", "a=b"] {
        let r = fill_headers(&vec![header(bad, "v", true)]);
        assert_eq!(
            r.unwrap().err(),
            Some(HttpClientError::InvalidHeader(format!("{}: invalid HTTP header name", bad)))
        );
    }
}

#[test]
fn header_name_length_is_bounded() {
    let longest = "a".repeat(65535);
    assert!(fill_headers(&vec![header(&longest, "v", true)]).unwrap().is_ok());
    let too_long = "a".repeat(65536);
    assert!(fill_headers(&vec![header(&too_long, "v", true)]).unwrap().is_err());
}

#[test]
fn delete_character_is_not_legal_in_a_value() {
    assert!(fill_headers(&vec![header("x", "a\u{7f}b", true)]).unwrap().is_err());
    assert!(fill_headers(&vec![header("x", "a\u{1f}b", true)]).unwrap().is_err());
    assert!(fill_headers(&vec![header("x", " ~", true)]).unwrap().is_ok());
    assert!(fill_headers(&vec![header("x", "", true)]).unwrap().is_ok());
}

#[test]
fn body_without_content_type_gets_json() {
    let prepared = ready("POST", "example.com", vec![header("X-A", "1", true)], "{\"a\":1}");
    assert_eq!(value_of(&prepared, "content-type"), Some(b"application/json".to_vec()));
    assert_eq!(prepared.headers.len(), 2);
}

#[test]
fn default_content_type_does_not_depend_on_the_method() {
    let prepared = ready("GET", "example.com", vec![], "text");
    assert_eq!(value_of(&prepared, "content-type"), Some(b"application/json".to_vec()));
    assert_eq!(prepared.body, None);
}

#[test]
fn explicit_content_type_is_preserved() {
    let headers = vec![header("Content-Type", "text/plain", true)];
    let prepared = ready("POST", "example.com", headers, "hello");
    let all: Vec<Vec<u8>> =
        prepared.headers.get_all("content-type").iter().map(|v| v.as_bytes().to_vec()).collect();
    assert_eq!(all, vec![b"text/plain".to_vec()]);
}

#[test]
fn disabled_content_type_does_not_count() {
    let headers = vec![header("Content-Type", "text/plain", false)];
    let prepared = ready("POST", "example.com", headers, "hello");
    assert_eq!(value_of(&prepared, "content-type"), Some(b"application/json".to_vec()));
}

#[test]
fn empty_body_gets_no_content_type() {
    let prepared = ready("POST", "example.com", vec![], "");
    assert!(prepared.headers.is_empty());
    assert_eq!(prepared.body, None);
}

#[test]
fn body_is_dropped_for_methods_without_one() {
    for method in ["GET", "HEAD", "DELETE", "OPTIONS"] {
        let prepared = ready(method, "example.com", vec![], "{\"a\":1}");
        assert_eq!(prepared.body, None);
    }
    assert_eq!(attach_body(HttpMethod::Get, "x"), None);
    assert_eq!(attach_body(HttpMethod::Head, "x"), None);
    assert_eq!(attach_body(HttpMethod::Delete, "x"), None);
    assert_eq!(attach_body(HttpMethod::Options, "x"), None);
}

#[test]
fn body_is_attached_verbatim_for_methods_with_one() {
    for method in ["POST", "PUT", "PATCH"] {
        let prepared = ready(method, "example.com", vec![], " {\"a\": 1}\n");
        assert_eq!(prepared.body, Some(" {\"a\": 1}\n".to_string()));
    }
    assert_eq!(attach_body(HttpMethod::Post, "x"), Some("x".to_string()));
    assert_eq!(attach_body(HttpMethod::Put, "x"), Some("x".to_string()));
    assert_eq!(attach_body(HttpMethod::Patch, "x"), Some("x".to_string()));
    assert_eq!(attach_body(HttpMethod::Patch, ""), None);
}

#[test]
fn methods_are_recognized() {
    assert_eq!(recognize_method("GET"), HttpMethod::Get);
    assert_eq!(recognize_method("POST"), HttpMethod::Post);
    assert_eq!(recognize_method("PUT"), HttpMethod::Put);
    assert_eq!(recognize_method("PATCH"), HttpMethod::Patch);
    assert_eq!(recognize_method("DELETE"), HttpMethod::Delete);
    assert_eq!(recognize_method("HEAD"), HttpMethod::Head);
    assert_eq!(recognize_method("OPTIONS"), HttpMethod::Options);
}

#[test]
fn method_is_case_insensitive() {
    assert_eq!(normalize_method("post"), HttpMethod::Post);
    assert_eq!(normalize_method("PaTcH"), HttpMethod::Patch);
    assert_eq!(normalize_method("options"), HttpMethod::Options);
    assert_eq!(ready("delete", "example.com", vec![], "").method, HttpMethod::Delete);
}

#[test]
fn recognition_expects_upper_case() {
    assert_eq!(recognize_method("post"), HttpMethod::Get);
}

#[test]
fn unrecognized_method_falls_back_to_get() {
    assert_eq!(normalize_method("TRACE"), HttpMethod::Get);
    assert_eq!(normalize_method("connect"), HttpMethod::Get);
    assert_eq!(normalize_method(""), HttpMethod::Get);
    assert_eq!(normalize_method(" POST"), HttpMethod::Get);
    let prepared = ready("FETCH", "example.com", vec![], "payload");
    assert_eq!(prepared.method, HttpMethod::Get);
    assert_eq!(prepared.body, None);
}

#[test]
fn header_table_takes_as_many_headers_as_promised() {
    let mut headers = Vec::new();
    for i in 0..HEADER_MAP_ROOM {
        headers.push(header(&format!("x-{}", i), "v", true));
    }
    let prepared = ready("POST", "example.com", headers, "body");
    assert_eq!(prepared.headers.len(), HEADER_MAP_ROOM + 1);
    assert!(prepared.headers.contains_key("content-type"));
}

fn many(count: usize, enabled: bool) -> Vec<HttpHeader> {
    let mut headers = Vec::new();
    for i in 0..count {
        headers.push(header(&format!("x-{}", i), "v", enabled));
    }
    headers
}

/// More names than the header table has slots.
const MORE_THAN_THE_TABLE_HOLDS: usize = 32_769;

#[test]
fn repeated_name_takes_one_place_in_the_table() {
    let mut headers = Vec::new();
    for i in 0..7000 {
        headers.push(header("a", &format!("{}", i), true));
    }
    let prepared = ready("post", "example.com", headers, "payload");
    assert_eq!(prepared.url, "http://example.com");
    assert_eq!(prepared.method, HttpMethod::Post);
    assert_eq!(prepared.body, Some("payload".to_string()));
    assert_eq!(prepared.headers.len(), 2);
    assert_eq!(value_of(&prepared, "a"), Some(b"6999".to_vec()));
    assert_eq!(value_of(&prepared, "content-type"), Some(b"application/json".to_vec()));
}

#[test]
fn one_name_more_than_the_room_is_taken() {
    let prepared = ready("GET", "example.com", many(HEADER_MAP_ROOM + 1, true), "");
    assert_eq!(prepared.headers.len(), HEADER_MAP_ROOM + 1);
    assert_eq!(value_of(&prepared, "x-6553"), Some(b"v".to_vec()));
}

#[test]
fn headers_that_take_no_part_need_no_room() {
    let mut headers = many(MORE_THAN_THE_TABLE_HOLDS, false);
    headers.push(header("", "no key", true));
    headers.push(header("X-Last", "1", true));
    let prepared = ready("GET", "example.com", headers, "");
    assert_eq!(prepared.headers.len(), 1);
    assert_eq!(value_of(&prepared, "x-last"), Some(b"1".to_vec()));
}

#[test]
fn nothing_is_prepared_where_the_table_refuses_a_header() {
    let headers = many(MORE_THAN_THE_TABLE_HOLDS, true);
    assert!(prepare_request(&request("GET", "example.com", headers.clone(), "")).is_none());
    assert!(fill_headers(&headers).is_none());
}

#[test]
fn empty_url_is_rejected_however_long_the_header_list_is() {
    let mut headers = many(MORE_THAN_THE_TABLE_HOLDS, true);
    headers.push(header("bad name", "line\nbreak", true));
    let r = prepare_request(&request("POST", "", headers, "body"));
    assert_eq!(
        r.unwrap().err(),
        Some(HttpClientError::InvalidUrl("URL is required".to_string()))
    );
}

#[test]
fn illegal_first_header_is_rejected_however_long_the_header_list_is() {
    let mut headers = vec![header("bad name", "1", true)];
    headers.extend(many(MORE_THAN_THE_TABLE_HOLDS, true));
    let r = prepare_request(&request("GET", "example.com", headers.clone(), ""));
    assert_eq!(
        r.unwrap().err(),
        Some(HttpClientError::InvalidHeader("bad name: invalid HTTP header name".to_string()))
    );
    assert_eq!(
        fill_headers(&headers).unwrap().err(),
        Some(HttpClientError::InvalidHeader("bad name: invalid HTTP header name".to_string()))
    );
}

#[test]
fn headers_after_a_refusal_are_still_validated() {
    let mut headers = many(MORE_THAN_THE_TABLE_HOLDS, true);
    headers.push(header("X-Late", "a\u{7f}", true));
    headers.push(header("later bad name", "1", true));
    let r = prepare_request(&request("GET", "example.com", headers, ""));
    assert_eq!(
        r.unwrap().err(),
        Some(HttpClientError::InvalidHeader("a\u{7f}: failed to parse header value".to_string()))
    );
}

#[test]
fn disabled_illegal_header_causes_no_error_after_a_refusal() {
    let mut headers = many(MORE_THAN_THE_TABLE_HOLDS, true);
    headers.push(header("bad name", "1", false));
    assert!(prepare_request(&request("GET", "example.com", headers, "")).is_none());
}

#[test]
fn short_header_list_is_always_prepared() {
    let headers = vec![header("X-A", "1", true)];
    let prepared = prepare_request(&request("get", "example.com", headers.clone(), ""))
        .unwrap()
        .unwrap();
    assert_eq!(prepared.url, "http://example.com");
    assert_eq!(value_of(&prepared, "x-a"), Some(b"1".to_vec()));
    let rejected = prepare_request(&request("get", "", headers, ""));
    assert_eq!(
        rejected.unwrap().err(),
        Some(HttpClientError::InvalidUrl("URL is required".to_string()))
    );
}
