use httpmsg::{
    parse_header, parse_headers, parse_request, parse_response, HeaderName, HeaderStore, Method,
    ParseError, StandardHeaderName, Version,
};

#[test]
fn simple_get_request() {
    let input = "GET / HTTP/1.1\r\nHost: example.com\r\n\r\n";
    let store = HeaderStore::new(4);
    let req = parse_request(input, store).unwrap();
    assert!(req.method == Method::Get);
    assert_eq!(req.target, "/");
    assert!(req.version == Version::V11);
    assert_eq!(req.headers.len(), 1);
    let host = req.headers.get(0);
    assert!(matches!(host.name, HeaderName::Standard(StandardHeaderName::Host)));
    assert_eq!(host.value, "example.com");
    assert_eq!(req.body, "");
}

#[test]
fn simple_ok_response() {
    let input = "HTTP/1.1 200 OK\r\nContent-Length: 5\r\n\r\nhello";
    let store = HeaderStore::new(4);
    let resp = parse_response(input, store).unwrap();
    assert!(resp.version == Version::V11);
    assert_eq!(resp.status_code.code, 200);
    assert_eq!(resp.headers.len(), 1);
    let cl = resp.headers.get(0);
    assert!(matches!(cl.name, HeaderName::Standard(StandardHeaderName::ContentLength)));
    assert_eq!(cl.value, "5");
    assert_eq!(resp.body, "hello");
}

#[test]
fn full_request_with_many_headers() {
    let input = "POST /submit HTTP/1.0\r\n\
        Host: localhost:8080\r\n\
        User-Agent: tester/1.0\r\n\
        X-Trace: abc\r\n\
        Content-Length: 8\r\n\
        \r\n\
        form=yes";
    let store = HeaderStore::new(4);
    let req = parse_request(input, store).unwrap();
    assert!(req.method == Method::Post);
    assert_eq!(req.target, "/submit");
    assert!(req.version == Version::V10);
    assert_eq!(req.headers.len(), 4);
    assert!(matches!(req.headers.get(0).name, HeaderName::Standard(StandardHeaderName::Host)));
    assert_eq!(req.headers.get(0).value, "localhost:8080");
    assert!(matches!(req.headers.get(1).name, HeaderName::Standard(StandardHeaderName::UserAgent)));
    assert!(matches!(req.headers.get(2).name, HeaderName::Custom(c) if c == "X-Trace"));
    assert_eq!(req.headers.get(3).value, "8");
    assert_eq!(req.body, "form=yes");
}

#[test]
fn header_line_without_separator_is_invalid() {
    let input = "GET / HTTP/1.1\r\nHost example.com\r\n\r\n";
    let store = HeaderStore::new(4);
    assert!(matches!(parse_request(input, store), Err(ParseError::InvalidHeader)));
    let input = "HTTP/1.1 200 OK\r\nbroken\r\n\r\n";
    let store = HeaderStore::new(4);
    assert!(matches!(parse_response(input, store), Err(ParseError::InvalidHeader)));
}

#[test]
fn header_count_past_capacity_is_too_many() {
    let input = "GET / HTTP/1.1\r\nHost: a\r\nX-B: b\r\n\r\n";
    let store = HeaderStore::new(1);
    assert!(matches!(parse_request(input, store), Err(ParseError::TooManyHeaders)));
    let input = "HTTP/1.1 200 OK\r\nHost: a\r\n\r\n";
    let store = HeaderStore::new(0);
    assert!(matches!(parse_response(input, store), Err(ParseError::TooManyHeaders)));
}

#[test]
fn start_line_with_missing_token_is_invalid_request() {
    assert!(matches!(
        parse_request("GET /", HeaderStore::new(4)),
        Err(ParseError::InvalidRequest)
    ));
    assert!(parse_request("GET / HTTP/1.1", HeaderStore::new(4)).is_ok());
    assert!(matches!(parse_request("", HeaderStore::new(4)), Err(ParseError::InvalidRequest)));
    assert!(matches!(
        parse_request("GET\r\n\r\n", HeaderStore::new(4)),
        Err(ParseError::InvalidRequest)
    ));
}

#[test]
fn tokens_separated_by_whitespace_runs() {
    let input = "GET  \t /spaced \t HTTP/2.0\r\n\r\n";
    let req = parse_request(input, HeaderStore::new(2)).unwrap();
    assert!(req.method == Method::Get);
    assert_eq!(req.target, "/spaced");
    assert!(req.version == Version::V20);
}

#[test]
fn response_start_line_without_space_is_invalid_response() {
    let store = HeaderStore::new(4);
    assert!(matches!(parse_response("HTTP/1.1", store), Err(ParseError::InvalidResponse)));
    let store = HeaderStore::new(4);
    assert!(matches!(parse_response("", store), Err(ParseError::InvalidResponse)));
}

#[test]
fn missing_blank_line_treats_whole_input_as_head() {
    // no delimiter: the entire input is the head and the body is empty
    let input = "GET /here HTTP/1.1";
    let store = HeaderStore::new(2);
    let req = parse_request(input, store).unwrap();
    assert!(req.method == Method::Get);
    assert_eq!(req.target, "/here");
    assert_eq!(req.headers.len(), 0);
    assert_eq!(req.body, "");
}

#[test]
fn unknown_vocabulary_degrades_to_defaults() {
    let input = "BREW /pot HTTP/9.9\r\n\r\ncoffee";
    let store = HeaderStore::new(2);
    let req = parse_request(input, store).unwrap();
    assert!(req.method == Method::Get);
    assert!(req.version == Version::V11);
    assert_eq!(req.target, "/pot");
    assert_eq!(req.body, "coffee");

    let input = "HTTP/9.9 BAD\r\n\r\n";
    let store = HeaderStore::new(2);
    let resp = parse_response(input, store).unwrap();
    assert!(resp.version == Version::V11);
    assert_eq!(resp.status_code.code, 200);
}

#[test]
fn response_reason_phrase_is_discarded() {
    let input = "HTTP/1.0 404 Not Found\r\n\r\n";
    let store = HeaderStore::new(2);
    let resp = parse_response(input, store).unwrap();
    assert!(resp.version == Version::V10);
    assert_eq!(resp.status_code.code, 404);
    assert_eq!(resp.body, "");
}

#[test]
fn parse_single_header_line() {
    let h = parse_header("Content-Type: text/html").unwrap();
    assert!(matches!(h.name, HeaderName::Standard(StandardHeaderName::ContentType)));
    assert_eq!(h.value, "text/html");
    // the value keeps everything after the first separator, verbatim
    let h = parse_header("X-Note: a: b: c").unwrap();
    assert!(matches!(h.name, HeaderName::Custom(c) if c == "X-Note"));
    assert_eq!(h.value, "a: b: c");
    assert!(matches!(parse_header("no separator"), Err(ParseError::InvalidHeader)));
    // a colon without the following space is no separator
    assert!(matches!(parse_header("Host:nospace"), Err(ParseError::InvalidHeader)));
}

#[test]
fn parse_header_section_appends_in_order() {
    let mut store = HeaderStore::new(3);
    assert!(parse_headers("Host: a\r\nX-B: b", &mut store).is_ok());
    assert_eq!(store.len(), 2);
    assert!(matches!(store.get(0).name, HeaderName::Standard(StandardHeaderName::Host)));
    assert_eq!(store.get(0).value, "a");
    assert!(matches!(store.get(1).name, HeaderName::Custom(c) if c == "X-B"));
    assert_eq!(store.get(1).value, "b");
    // failure keeps the headers already appended
    let mut store = HeaderStore::new(3);
    assert!(matches!(
        parse_headers("Host: a\r\nbroken\r\nX-C: c", &mut store),
        Err(ParseError::InvalidHeader)
    ));
    assert_eq!(store.len(), 1);
    assert_eq!(store.get(0).value, "a");
}

#[test]
fn body_keeps_later_blank_lines() {
    let input = "HTTP/1.1 200 OK\r\n\r\nfirst\r\n\r\nsecond";
    let store = HeaderStore::new(1);
    let resp = parse_response(input, store).unwrap();
    assert_eq!(resp.body, "first\r\n\r\nsecond");
}
