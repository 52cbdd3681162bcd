use simple_rust_webserver::HttpOption;
use simple_rust_webserver::HttpResponseBuilder;
use simple_rust_webserver::HttpResponseCode;
use simple_rust_webserver::HttpVersion;

fn declared_content_length(out: &str) -> usize {
    let head_end = out.find("\r\n\r\n").expect("no header terminator");
    let head = &out[..head_end];
    let line = head
        .split("\r\n")
        .find(|l| l.starts_with("Content-Length: "))
        .expect("no content-length header");
    line["Content-Length: ".len()..].parse().expect("bad length")
}

fn body_segment(out: &str) -> &str {
    let head_end = out.find("\r\n\r\n").expect("no header terminator");
    &out[head_end + 4..]
}

#[test]
fn default_build_is_bad_request() {
    let resp = HttpResponseBuilder::new().finalize();
    assert_eq!(resp.http_response_code, HttpResponseCode::BadRequest);
    assert_eq!(resp.http_version, HttpVersion::V1_0);
    assert_eq!(resp.http_options.server, "simple_rust_webserver");
    assert_eq!(resp.http_options.content_type, "text/html; charset=utf-8");
    assert_eq!(resp.body, "<html><body><h1>400 Bad Request</h1></body></html>\n");
    let out = resp.as_string();
    assert!(out.starts_with("HTTP/1.0 400 Bad Request\r\n"));
}

#[test]
fn serialized_shape_and_headers() {
    let mut b = HttpResponseBuilder::new();
    b.http_response_code(HttpResponseCode::Success);
    b.http_version(HttpVersion::V1_1);
    b.http_options((HttpOption::Date, "Mon, 01 Jan 2024 00:00:00 +0000".to_string()));
    b.body("<html><body><h1>200 OK</h1></body></html>\n");
    let out = b.finalize().as_string();
    let expected = "HTTP/1.1 200 OK\r\n\
        Date: Mon, 01 Jan 2024 00:00:00 +0000\r\n\
        Server: simple_rust_webserver\r\n\
        Content-Type: text/html; charset=utf-8\r\n\
        Content-Length: 42\r\n\
        \r\n\
        <html><body><h1>200 OK</h1></body></html>\n";
    assert_eq!(out, expected);
}

#[test]
fn builder_overrides_each_field() {
    let mut b = HttpResponseBuilder::new();
    b.http_options((HttpOption::Server, "other".to_string()));
    b.http_options((HttpOption::ContentType, "text/plain".to_string()));
    b.http_options((HttpOption::Date, "D".to_string()));
    b.body("xyz");
    let resp = b.finalize();
    assert_eq!(resp.http_options.server, "other");
    assert_eq!(resp.http_options.content_type, "text/plain");
    assert_eq!(resp.http_options.date, "D");
    assert_eq!(resp.body, "xyz");
    let out = resp.as_string();
    assert!(out.contains("Server: other\r\n"));
    assert!(out.contains("Content-Type: text/plain\r\n"));
    assert!(out.contains("Date: D\r\n"));
    assert!(out.ends_with("Content-Length: 3\r\n\r\nxyz"));
}

#[test]
fn content_length_matches_body_segment() {
    let bodies = ["", "x", "<html></html>\n", "two\r\n\r\nparts", "caf\u{e9} \u{2603}"];
    for body in bodies {
        let mut b = HttpResponseBuilder::new();
        b.body(body);
        let out = b.finalize().as_string();
        let declared = declared_content_length(&out);
        let segment = body_segment(&out);
        assert_eq!(segment, body);
        assert_eq!(declared, segment.len());
    }
}

#[test]
fn content_length_counts_bytes_not_chars() {
    let mut b = HttpResponseBuilder::new();
    b.body("\u{e9}");
    let out = b.finalize().as_string();
    assert_eq!(declared_content_length(&out), 2);
    assert_eq!(body_segment(&out).chars().count(), 1);
}

#[test]
fn each_header_appears_exactly_once() {
    let out = HttpResponseBuilder::new().finalize().as_string();
    let head_end = out.find("\r\n\r\n").unwrap();
    let head = &out[..head_end];
    for name in ["Date: ", "Server: ", "Content-Type: ", "Content-Length: "] {
        assert_eq!(head.matches(name).count(), 1, "header {name}");
    }
}

#[test]
fn option_names_on_the_wire() {
    assert_eq!(HttpOption::ContentType.name_text(), "Content-Type");
    assert_eq!(HttpOption::Date.name_text(), "Date");
    assert_eq!(HttpOption::Server.name_text(), "Server");
}

#[test]
fn date_header_is_present() {
    let out = HttpResponseBuilder::new().finalize().as_string();
    assert!(out.contains("\r\nDate: "));
}
