use httpmsg::{HeaderName, Method, StandardHeaderName, StatusCode, Version};

fn standard_table() -> Vec<(&'static str, StandardHeaderName)> {
    vec![
        ("Accept", StandardHeaderName::Accept),
        ("Accept-Charset", StandardHeaderName::AcceptCharset),
        ("Accept-Encoding", StandardHeaderName::AcceptEncoding),
        ("Accept-Language", StandardHeaderName::AcceptLanguage),
        ("Accept-Patch", StandardHeaderName::AcceptPatch),
        ("Accept-Post", StandardHeaderName::AcceptPost),
        ("Accept-Ranges", StandardHeaderName::AcceptRanges),
        ("Access-Control-Allow-Credentials", StandardHeaderName::AccessControlAllowCredentials),
        ("Access-Control-Allow-Headers", StandardHeaderName::AccessControlAllowHeaders),
        ("Access-Control-Allow-Methods", StandardHeaderName::AccessControlAllowMethods),
        ("Access-Control-Allow-Origin", StandardHeaderName::AccessControlAllowOrigin),
        ("Access-Control-Expose-Headers", StandardHeaderName::AccessControlExposeHeaders),
        ("Access-Control-Max-Age", StandardHeaderName::AccessControlMaxAge),
        ("Access-Control-Request-Headers", StandardHeaderName::AccessControlRequestHeaders),
        ("Access-Control-Request-Method", StandardHeaderName::AccessControlRequestMethod),
        ("Age", StandardHeaderName::Age),
        ("Allow", StandardHeaderName::Allow),
        ("Alt-Svc", StandardHeaderName::AltSvc),
        ("Alt-Used", StandardHeaderName::AltUsed),
        ("Authorization", StandardHeaderName::Authoritzation),
        ("Cache-Control", StandardHeaderName::CacheControl),
        ("Clear-Site-Data", StandardHeaderName::ClearSiteData),
        ("Connection", StandardHeaderName::Connection),
        ("Content-Disposition", StandardHeaderName::ContentDisposition),
        ("Content-Encoding", StandardHeaderName::ContentEncoding),
        ("Content-Language", StandardHeaderName::ContentLanguage),
        ("Content-Length", StandardHeaderName::ContentLength),
        ("Content-Location", StandardHeaderName::ContentLocation),
        ("Content-Range", StandardHeaderName::ContentRange),
        ("Content-Security-Policy", StandardHeaderName::ContentSecurityPolicy),
        ("Content-Security-Policy-Report-Only", StandardHeaderName::ContentSecurityPolicyReportOnly),
        ("Content-Type", StandardHeaderName::ContentType),
        ("Cookie", StandardHeaderName::Cookie),
        ("Cross-Origin-Embedder-Policy", StandardHeaderName::CrossOriginEmbedderPolicy),
        ("Cross-Origin-Opener-Policy", StandardHeaderName::CrossOriginOpenerPolicy),
        ("Cross-Origin-Resource-Policy", StandardHeaderName::CrossOriginResourcePolicy),
        ("Date", StandardHeaderName::Date),
        ("Device-Memory", StandardHeaderName::DeviceMemory),
        ("Etag", StandardHeaderName::Etag),
        ("Expect", StandardHeaderName::Expect),
        ("Expires", StandardHeaderName::Expires),
        ("Forwarded", StandardHeaderName::Forwarded),
        ("From", StandardHeaderName::From),
        ("Host", StandardHeaderName::Host),
        ("If-Match", StandardHeaderName::IfMatch),
        ("If-Modified-Since", StandardHeaderName::IfModifiedSince),
        ("If-None-Match", StandardHeaderName::IfNoneMatch),
        ("If-Range", StandardHeaderName::IfRange),
        ("If-Unmodified-Since", StandardHeaderName::IfUnmodifiedSince),
        ("Keep-Alive", StandardHeaderName::KeepAlive),
        ("Last-Modified", StandardHeaderName::LastModified),
        ("Link", StandardHeaderName::Link),
        ("Location", StandardHeaderName::Location),
        ("Max-Forwards", StandardHeaderName::MaxForwards),
        ("Origin", StandardHeaderName::Origin),
        ("Permissions-Policy", StandardHeaderName::PermissionsPolicy),
        ("Proxy-Authenticate", StandardHeaderName::ProxyAuthenticate),
        ("Proxy-Authorization", StandardHeaderName::ProxyAuthorization),
        ("Range", StandardHeaderName::Range),
        ("Referer", StandardHeaderName::Referer),
        ("Referer-Policy", StandardHeaderName::RefererPolicy),
        ("Reporting-Endpoints", StandardHeaderName::ReportingEndpoints),
        ("Retry-After", StandardHeaderName::RetryAfter),
        ("Sec-Fetch-Dest", StandardHeaderName::SecFetchDest),
        ("Sec-Fetch-Mode", StandardHeaderName::SecFetchMode),
        ("Sec-Fetch-Site", StandardHeaderName::SecFetchSite),
        ("Sec-Fetch-User", StandardHeaderName::SecFetchUser),
        ("Sec-Purpose", StandardHeaderName::SecPurpose),
        ("Sec-Websocket-Accept", StandardHeaderName::SecWebsocketAccept),
        ("Server", StandardHeaderName::Server),
        ("Server-Timing", StandardHeaderName::ServerTiming),
        ("Service-Worker-Navigation-Preload", StandardHeaderName::ServiceWorkerNavigationPreload),
        ("Set-Cookie", StandardHeaderName::SetCookie),
        ("SourceMap", StandardHeaderName::SourceMap),
        ("Strict-Transport-Security", StandardHeaderName::StrictTransportSecurity),
        ("TE", StandardHeaderName::TE),
        ("Timing-Allow-Origin", StandardHeaderName::TimingAllowOrigin),
        ("Trailer", StandardHeaderName::Trailer),
        ("Transfer-Encoding", StandardHeaderName::TransferEncoding),
        ("Upgrade", StandardHeaderName::Upgrade),
        ("Upgrade-Insecure-Requests", StandardHeaderName::UpgradeInsecureRequests),
        ("User-Agent", StandardHeaderName::UserAgent),
        ("Vary", StandardHeaderName::Vary),
        ("Via", StandardHeaderName::Via),
        ("WWW-Authenticate", StandardHeaderName::WWWAuthenticate),
        ("X-Content-Type-Options", StandardHeaderName::XContentTypeOptions),
        ("X-Frame-Options", StandardHeaderName::XFrameOptions),
        ("X-XSS-Protection", StandardHeaderName::XXssProtection),
    ]
}

#[test]
fn standard_names_round_trip() {
    for (text, name) in standard_table() {
        match HeaderName::classify(text) {
            HeaderName::Standard(h) => assert!(h == name, "wrong member for {}", text),
            HeaderName::Custom(_) => panic!("{} classified as custom", text),
        }
        match StandardHeaderName::try_from_str(text) {
            Ok(h) => assert!(h == name, "wrong lookup for {}", text),
            Err(_) => panic!("{} rejected by lookup", text),
        }
    }
}

#[test]
fn custom_names_kept_verbatim() {
    for raw in ["X-Custom", "host", "HOST", "", "Content-length", "Authoritzation", " Host"] {
        match HeaderName::classify(raw) {
            HeaderName::Standard(_) => panic!("{:?} classified as standard", raw),
            HeaderName::Custom(c) => assert_eq!(c, raw),
        }
        match StandardHeaderName::try_from_str(raw) {
            Ok(_) => panic!("{:?} accepted by lookup", raw),
            Err(e) => assert_eq!(e.0, raw),
        }
    }
}

#[test]
fn method_tokens() {
    assert!(Method::from_token("GET") == Method::Get);
    assert!(Method::from_token("HEAD") == Method::Head);
    assert!(Method::from_token("POST") == Method::Post);
    assert!(Method::from_token("PATCH") == Method::Patch);
    assert!(Method::from_token("PUT") == Method::Put);
    assert!(Method::from_token("DELETE") == Method::Delete);
    assert!(Method::from_token("TRACE") == Method::Trace);
    assert!(Method::from_token("CONNECT") == Method::Connect);
    assert!(Method::from_token("OPTIONS") == Method::Options);
    // unrecognized vocabulary degrades to the default
    assert!(Method::from_token("get") == Method::Get);
    assert!(Method::from_token("BREW") == Method::Get);
    assert!(Method::default() == Method::Get);
}

#[test]
fn version_tokens() {
    assert!(Version::from_token("HTTP/1.0") == Version::V10);
    assert!(Version::from_token("HTTP/1.1") == Version::V11);
    assert!(Version::from_token("HTTP/2.0") == Version::V20);
    // unrecognized vocabulary degrades to the default
    assert!(Version::from_token("HTTP/3.0") == Version::V11);
    assert!(Version::from_token("") == Version::V11);
    assert!(Version::default() == Version::V11);
}

#[test]
fn status_tokens() {
    assert_eq!(StatusCode::from_token("200").code, 200);
    assert_eq!(StatusCode::from_token("404").code, 404);
    assert_eq!(StatusCode::from_token("999").code, 999);
    assert_eq!(StatusCode::from_token("000").code, 0);
    // anything but three decimal digits degrades to the default
    assert_eq!(StatusCode::from_token("20").code, 200);
    assert_eq!(StatusCode::from_token("2000").code, 200);
    assert_eq!(StatusCode::from_token("4o4").code, 200);
    assert_eq!(StatusCode::from_token("").code, 200);
    assert_eq!(StatusCode::default().code, 200);
    assert_eq!(StatusCode::new(418).code, 418);
}
