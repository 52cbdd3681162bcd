use simple_rust_webserver::HttpMessage;
use simple_rust_webserver::HttpMessageParser;
use simple_rust_webserver::HttpResponseCode;
use simple_rust_webserver::HttpVerb;
use simple_rust_webserver::HttpVersion;

#[test]
fn happy_path_request_line() {
    let msg = HttpMessage::create_from_str("GET / HTTP/1.1");
    assert_eq!(msg.http_verb, Some(HttpVerb::Get));
    assert_eq!(msg.http_version, Some(HttpVersion::V1_1));
    assert_eq!(msg.request_path.as_deref(), Some("/"));
    assert_eq!(msg.raw_message, "GET / HTTP/1.1");
}

#[test]
fn malformed_request_is_all_none() {
    let msg = HttpMessage::create_from_str("FOO");
    assert_eq!(msg.http_verb, None);
    assert_eq!(msg.http_version, None);
    assert_eq!(msg.request_path, None);
    assert_eq!(msg.raw_message, "FOO");
}

#[test]
fn malformed_request_routes_to_bad_request() {
    let mut parser = HttpMessageParser::new();
    let msgs = parser.push_bytes(b"FOO\r\n\r\n").unwrap();
    assert_eq!(msgs.len(), 1);
    assert_eq!(msgs[0].http_verb, None);
    assert_eq!(msgs[0].http_version, None);
    assert_eq!(msgs[0].request_path, None);
    let resp = msgs[0].process();
    assert_eq!(resp.http_response_code, HttpResponseCode::BadRequest);
    assert_eq!(resp.http_version, HttpVersion::V1_0);
    assert_eq!(resp.body, "<html><body><h1>400 Bad Request</h1></body></html>\n");
}

#[test]
fn unknown_path_routes_to_not_found() {
    let msg = HttpMessage::create_from_str("GET /nope HTTP/1.1");
    assert_eq!(msg.http_verb, Some(HttpVerb::Get));
    assert_eq!(msg.http_version, Some(HttpVersion::V1_1));
    assert_eq!(msg.request_path.as_deref(), Some("/nope"));
    let resp = msg.process();
    assert_eq!(resp.http_response_code, HttpResponseCode::NotFound);
    assert_eq!(resp.http_version, HttpVersion::V1_1);
    assert_eq!(resp.body, "<html><body><h1>404 Not Found</h1></body></html>\n");
}

#[test]
fn root_get_routes_to_success() {
    let msg = HttpMessage::create_from_str("GET / HTTP/1.1");
    let resp = msg.process();
    assert_eq!(resp.http_response_code, HttpResponseCode::Success);
    assert_eq!(resp.http_version, HttpVersion::V1_1);
    assert_eq!(resp.body, "<html><body><h1>200 OK</h1></body></html>\n");
}

#[test]
fn unrecognized_verb_routes_to_bad_request() {
    // only GET is a recognized verb, so POST / falls to the malformed
    // case even though the line has three tokens
    let msg = HttpMessage::create_from_str("POST / HTTP/1.1");
    assert_eq!(msg.http_verb, None);
    assert_eq!(msg.http_version, Some(HttpVersion::V1_1));
    assert_eq!(msg.request_path.as_deref(), Some("/"));
    let resp = msg.process();
    assert_eq!(resp.http_response_code, HttpResponseCode::BadRequest);
}

#[test]
fn verb_matching_ignores_ascii_case() {
    assert_eq!(HttpMessage::http_verb_from_str("GET"), Some(HttpVerb::Get));
    assert_eq!(HttpMessage::http_verb_from_str("get"), Some(HttpVerb::Get));
    assert_eq!(HttpMessage::http_verb_from_str("GeT"), Some(HttpVerb::Get));
    assert_eq!(HttpMessage::http_verb_from_str("POST"), None);
    assert_eq!(HttpMessage::http_verb_from_str("GETX"), None);
    assert_eq!(HttpMessage::http_verb_from_str(""), None);
}

#[test]
fn version_matching_ignores_ascii_case() {
    assert_eq!(HttpMessage::http_version_from_str("HTTP/1.0"), Some(HttpVersion::V1_0));
    assert_eq!(HttpMessage::http_version_from_str("HTTP/1.1"), Some(HttpVersion::V1_1));
    assert_eq!(HttpMessage::http_version_from_str("http/1.1"), Some(HttpVersion::V1_1));
    assert_eq!(HttpMessage::http_version_from_str("HTTP/2.0"), None);
    assert_eq!(HttpMessage::http_version_from_str("HTTP/1.2"), None);
    assert_eq!(HttpMessage::http_version_from_str(""), None);
}

#[test]
fn wrong_token_count_is_all_none() {
    let two = HttpMessage::create_from_str("GET /");
    assert_eq!(two.http_verb, None);
    assert_eq!(two.http_version, None);
    assert_eq!(two.request_path, None);

    let four = HttpMessage::create_from_str("GET / HTTP/1.1 extra");
    assert_eq!(four.http_verb, None);
    assert_eq!(four.request_path, None);
}

#[test]
fn empty_message_is_all_none() {
    let msg = HttpMessage::create_from_str("");
    assert_eq!(msg.http_verb, None);
    assert_eq!(msg.http_version, None);
    assert_eq!(msg.request_path, None);
    assert_eq!(msg.raw_message, "");
    let resp = msg.process();
    assert_eq!(resp.http_response_code, HttpResponseCode::BadRequest);
}

#[test]
fn only_first_line_is_parsed() {
    let msg = HttpMessage::create_from_str("GET / HTTP/1.1\r\nHost: example\r\nAccept: */*");
    assert_eq!(msg.http_verb, Some(HttpVerb::Get));
    assert_eq!(msg.request_path.as_deref(), Some("/"));
    assert_eq!(msg.raw_message, "GET / HTTP/1.1\r\nHost: example\r\nAccept: */*");
}

#[test]
fn tabs_and_repeated_spaces_separate_tokens() {
    let msg = HttpMessage::create_from_str("GET\t/   HTTP/1.1");
    assert_eq!(msg.http_verb, Some(HttpVerb::Get));
    assert_eq!(msg.request_path.as_deref(), Some("/"));
    assert_eq!(msg.http_version, Some(HttpVersion::V1_1));
}

#[test]
fn unrecognized_version_routes_to_bad_request() {
    // the request line parses to Get and "/" but the version token is
    // unknown, so the line is malformed and the default response applies
    let msg = HttpMessage::create_from_str("GET / HTTP/9.9");
    assert_eq!(msg.http_verb, Some(HttpVerb::Get));
    assert_eq!(msg.http_version, None);
    assert_eq!(msg.request_path.as_deref(), Some("/"));
    let resp = msg.process();
    assert_eq!(resp.http_response_code, HttpResponseCode::BadRequest);
    assert_eq!(resp.http_version, HttpVersion::V1_0);
}
