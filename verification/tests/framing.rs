use simple_rust_webserver::HttpMessageParser;
use simple_rust_webserver::HttpVerb;
use simple_rust_webserver::HttpVersion;

#[test]
fn whole_message_in_one_chunk() {
    let mut parser = HttpMessageParser::new();
    let msgs = parser.push_bytes(b"GET / HTTP/1.1\r\n\r\n").unwrap();
    assert_eq!(msgs.len(), 1);
    assert_eq!(msgs[0].raw_message, "GET / HTTP/1.1");
    assert_eq!(msgs[0].http_verb, Some(HttpVerb::Get));
    assert_eq!(msgs[0].http_version, Some(HttpVersion::V1_1));
    assert_eq!(msgs[0].request_path.as_deref(), Some("/"));
    assert_eq!(parser.buffer, "");
}

#[test]
fn partial_then_complete_chunking() {
    let mut parser = HttpMessageParser::new();
    let first = parser.push_bytes(b"GET / HTTP/1.1\r\n\r").unwrap();
    assert_eq!(first.len(), 0);
    assert_eq!(parser.buffer, "GET / HTTP/1.1\r\n\r");
    let second = parser.push_bytes(b"\n\r\n").unwrap();
    assert_eq!(second.len(), 1);
    assert_eq!(second[0].raw_message, "GET / HTTP/1.1");
    assert_eq!(parser.buffer, "\r\n");

    let mut at_once = HttpMessageParser::new();
    let all = at_once.push_bytes(b"GET / HTTP/1.1\r\n\r\n\r\n").unwrap();
    assert_eq!(all.len(), 1);
    assert_eq!(all[0].raw_message, second[0].raw_message);
    assert_eq!(at_once.buffer, parser.buffer);
}

#[test]
fn empty_chunk_changes_nothing() {
    let mut parser = HttpMessageParser::new();
    parser.push_bytes(b"GET /part").unwrap();
    assert_eq!(parser.buffer, "GET /part");
    let msgs = parser.push_bytes(b"").unwrap();
    assert_eq!(msgs.len(), 0);
    assert_eq!(parser.buffer, "GET /part");
}

#[test]
fn consecutive_delimiters_yield_empty_messages() {
    let mut parser = HttpMessageParser::new();
    let msgs = parser.push_bytes(b"a\r\n\r\n\r\n\r\nb").unwrap();
    assert_eq!(msgs.len(), 2);
    assert_eq!(msgs[0].raw_message, "a");
    assert_eq!(msgs[1].raw_message, "");
    assert_eq!(msgs[1].http_verb, None);
    assert_eq!(parser.buffer, "b");
}

#[test]
fn split_invariance_over_chunkings() {
    let stream = "GET / HTTP/1.1\r\n\r\nFOO\r\n\r\nGET /x HTTP/1.0\r\n\r\ntail";
    let mut whole = HttpMessageParser::new();
    let whole_msgs = whole.push_bytes(stream.as_bytes()).unwrap();
    assert_eq!(whole_msgs.len(), 3);

    for cut1 in [1usize, 5, 16, 17, 19, 25] {
        for cut2 in [26usize, 35, 40, 44] {
            let mut parser = HttpMessageParser::new();
            let mut msgs = Vec::new();
            msgs.extend(parser.push_bytes(stream[..cut1].as_bytes()).unwrap());
            msgs.extend(parser.push_bytes(stream[cut1..cut2].as_bytes()).unwrap());
            msgs.extend(parser.push_bytes(stream[cut2..].as_bytes()).unwrap());
            assert_eq!(msgs.len(), whole_msgs.len());
            for (a, b) in msgs.iter().zip(whole_msgs.iter()) {
                assert_eq!(a.raw_message, b.raw_message);
            }
            assert_eq!(parser.buffer, whole.buffer);
        }
    }
}

#[test]
fn no_byte_loss() {
    let stream = "alpha\r\n\r\nbeta\r\n\r\ngam";
    let mut parser = HttpMessageParser::new();
    let mut msgs = Vec::new();
    msgs.extend(parser.push_bytes(b"alpha\r\n\r").unwrap());
    msgs.extend(parser.push_bytes(b"\nbeta\r\n\r\ngam").unwrap());
    let mut rebuilt = String::new();
    for m in &msgs {
        rebuilt.push_str(&m.raw_message);
        rebuilt.push_str("\r\n\r\n");
    }
    rebuilt.push_str(&parser.buffer);
    assert_eq!(rebuilt, stream);
}

#[test]
fn invalid_utf8_is_an_encoding_error() {
    let mut parser = HttpMessageParser::new();
    parser.push_bytes(b"carry").unwrap();
    let r = parser.push_bytes(&[0x47, 0xff, 0xfe]);
    assert!(r.is_err());
    assert_eq!(parser.buffer, "carry");
}

#[test]
fn delimiter_split_across_every_boundary() {
    // cut the lone delimiter at each of its internal positions
    let stream = "x\r\n\r\ny";
    for cut in 1..stream.len() {
        let mut parser = HttpMessageParser::new();
        let mut msgs = Vec::new();
        msgs.extend(parser.push_bytes(stream[..cut].as_bytes()).unwrap());
        msgs.extend(parser.push_bytes(stream[cut..].as_bytes()).unwrap());
        assert_eq!(msgs.len(), 1);
        assert_eq!(msgs[0].raw_message, "x");
        assert_eq!(parser.buffer, "y");
    }
}
