use httpmsg::{Header, HeaderName, HeaderStore, Method, Request, Response, StatusCode, Version};

#[test]
fn request_defaults_and_setters() {
    let store = HeaderStore::new(2);
    let mut req = Request::new("payload", store);
    assert!(req.method == Method::Get);
    assert_eq!(req.target, "/");
    assert!(req.version == Version::V11);
    assert_eq!(req.headers.len(), 0);
    assert_eq!(req.body, "payload");
    req.method(Method::Delete);
    req.url_target("/resource/7");
    req.version(Version::V20);
    assert!(req.method == Method::Delete);
    assert_eq!(req.target, "/resource/7");
    assert!(req.version == Version::V20);
    assert_eq!(req.body, "payload");
}

#[test]
fn response_defaults_and_setters() {
    let store = HeaderStore::new(2);
    let mut resp = Response::new((), store);
    assert!(resp.version == Version::V11);
    assert_eq!(resp.status_code.code, 200);
    assert_eq!(resp.headers.len(), 0);
    resp.version(Version::V10);
    resp.status_code(StatusCode::new(503));
    assert!(resp.version == Version::V10);
    assert_eq!(resp.status_code.code, 503);
}

#[test]
fn message_keeps_given_store_contents() {
    let mut store = HeaderStore::new(2);
    store.add_header(Header::new(HeaderName::classify("Host"), "h")).unwrap();
    let req = Request::new("", store);
    assert_eq!(req.headers.len(), 1);
    assert_eq!(req.headers.get(0).value, "h");
}

#[test]
fn default_header_is_empty_custom() {
    let h = Header::default();
    assert!(matches!(h.name, HeaderName::Custom("")));
    assert_eq!(h.value, "");
}
