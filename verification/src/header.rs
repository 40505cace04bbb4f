//! Header names and header cells.
//!
//! A raw header-name string is classified against a closed table of standard
//! HTTP header names: an exact, case-sensitive match yields the `Standard`
//! member, and every other string is preserved verbatim, without copying, as
//! `Custom`. Classification is total: it never fails.

use vstd::prelude::*;

verus! {

/// The closed set of recognized standard HTTP header names.
#[derive(Clone, Copy, Debug, PartialEq, Eq, Structural)]
pub enum StandardHeaderName {
    Accept,
    AcceptCharset,
    AcceptEncoding,
    AcceptLanguage,
    AcceptPatch,
    AcceptPost,
    AcceptRanges,
    AccessControlAllowCredentials,
    AccessControlAllowHeaders,
    AccessControlAllowMethods,
    AccessControlAllowOrigin,
    AccessControlExposeHeaders,
    AccessControlMaxAge,
    AccessControlRequestHeaders,
    AccessControlRequestMethod,
    Age,
    Allow,
    AltSvc,
    AltUsed,
    Authoritzation,
    CacheControl,
    ClearSiteData,
    Connection,
    ContentDisposition,
    ContentEncoding,
    ContentLanguage,
    ContentLength,
    ContentLocation,
    ContentRange,
    ContentSecurityPolicy,
    ContentSecurityPolicyReportOnly,
    ContentType,
    Cookie,
    CrossOriginEmbedderPolicy,
    CrossOriginOpenerPolicy,
    CrossOriginResourcePolicy,
    Date,
    DeviceMemory,
    Etag,
    Expect,
    Expires,
    Forwarded,
    From,
    Host,
    IfMatch,
    IfModifiedSince,
    IfNoneMatch,
    IfRange,
    IfUnmodifiedSince,
    KeepAlive,
    LastModified,
    Link,
    Location,
    MaxForwards,
    Origin,
    PermissionsPolicy,
    ProxyAuthenticate,
    ProxyAuthorization,
    Range,
    Referer,
    RefererPolicy,
    ReportingEndpoints,
    RetryAfter,
    SecFetchDest,
    SecFetchMode,
    SecFetchSite,
    SecFetchUser,
    SecPurpose,
    SecWebsocketAccept,
    Server,
    ServerTiming,
    ServiceWorkerNavigationPreload,
    SetCookie,
    SourceMap,
    StrictTransportSecurity,
    TE,
    TimingAllowOrigin,
    Trailer,
    TransferEncoding,
    Upgrade,
    UpgradeInsecureRequests,
    UserAgent,
    Vary,
    Via,
    WWWAuthenticate,
    XContentTypeOptions,
    XFrameOptions,
    XXssProtection,
}

/// The canonical text of a standard header name: the one string that
/// classifies to it.
pub open spec fn standard_name_text(h: StandardHeaderName) -> Seq<char> {
    match h {
        StandardHeaderName::Accept => "Accept"@,
        StandardHeaderName::AcceptCharset => "Accept-Charset"@,
        StandardHeaderName::AcceptEncoding => "Accept-Encoding"@,
        StandardHeaderName::AcceptLanguage => "Accept-Language"@,
        StandardHeaderName::AcceptPatch => "Accept-Patch"@,
        StandardHeaderName::AcceptPost => "Accept-Post"@,
        StandardHeaderName::AcceptRanges => "Accept-Ranges"@,
        StandardHeaderName::AccessControlAllowCredentials => "Access-Control-Allow-Credentials"@,
        StandardHeaderName::AccessControlAllowHeaders => "Access-Control-Allow-Headers"@,
        StandardHeaderName::AccessControlAllowMethods => "Access-Control-Allow-Methods"@,
        StandardHeaderName::AccessControlAllowOrigin => "Access-Control-Allow-Origin"@,
        StandardHeaderName::AccessControlExposeHeaders => "Access-Control-Expose-Headers"@,
        StandardHeaderName::AccessControlMaxAge => "Access-Control-Max-Age"@,
        StandardHeaderName::AccessControlRequestHeaders => "Access-Control-Request-Headers"@,
        StandardHeaderName::AccessControlRequestMethod => "Access-Control-Request-Method"@,
        StandardHeaderName::Age => "Age"@,
        StandardHeaderName::Allow => "Allow"@,
        StandardHeaderName::AltSvc => "Alt-Svc"@,
        StandardHeaderName::AltUsed => "Alt-Used"@,
        StandardHeaderName::Authoritzation => "Authorization"@,
        StandardHeaderName::CacheControl => "Cache-Control"@,
        StandardHeaderName::ClearSiteData => "Clear-Site-Data"@,
        StandardHeaderName::Connection => "Connection"@,
        StandardHeaderName::ContentDisposition => "Content-Disposition"@,
        StandardHeaderName::ContentEncoding => "Content-Encoding"@,
        StandardHeaderName::ContentLanguage => "Content-Language"@,
        StandardHeaderName::ContentLength => "Content-Length"@,
        StandardHeaderName::ContentLocation => "Content-Location"@,
        StandardHeaderName::ContentRange => "Content-Range"@,
        StandardHeaderName::ContentSecurityPolicy => "Content-Security-Policy"@,
        StandardHeaderName::ContentSecurityPolicyReportOnly => "Content-Security-Policy-Report-Only"@,
        StandardHeaderName::ContentType => "Content-Type"@,
        StandardHeaderName::Cookie => "Cookie"@,
        StandardHeaderName::CrossOriginEmbedderPolicy => "Cross-Origin-Embedder-Policy"@,
        StandardHeaderName::CrossOriginOpenerPolicy => "Cross-Origin-Opener-Policy"@,
        StandardHeaderName::CrossOriginResourcePolicy => "Cross-Origin-Resource-Policy"@,
        StandardHeaderName::Date => "Date"@,
        StandardHeaderName::DeviceMemory => "Device-Memory"@,
        StandardHeaderName::Etag => "Etag"@,
        StandardHeaderName::Expect => "Expect"@,
        StandardHeaderName::Expires => "Expires"@,
        StandardHeaderName::Forwarded => "Forwarded"@,
        StandardHeaderName::From => "From"@,
        StandardHeaderName::Host => "Host"@,
        StandardHeaderName::IfMatch => "If-Match"@,
        StandardHeaderName::IfModifiedSince => "If-Modified-Since"@,
        StandardHeaderName::IfNoneMatch => "If-None-Match"@,
        StandardHeaderName::IfRange => "If-Range"@,
        StandardHeaderName::IfUnmodifiedSince => "If-Unmodified-Since"@,
        StandardHeaderName::KeepAlive => "Keep-Alive"@,
        StandardHeaderName::LastModified => "Last-Modified"@,
        StandardHeaderName::Link => "Link"@,
        StandardHeaderName::Location => "Location"@,
        StandardHeaderName::MaxForwards => "Max-Forwards"@,
        StandardHeaderName::Origin => "Origin"@,
        StandardHeaderName::PermissionsPolicy => "Permissions-Policy"@,
        StandardHeaderName::ProxyAuthenticate => "Proxy-Authenticate"@,
        StandardHeaderName::ProxyAuthorization => "Proxy-Authorization"@,
        StandardHeaderName::Range => "Range"@,
        StandardHeaderName::Referer => "Referer"@,
        StandardHeaderName::RefererPolicy => "Referer-Policy"@,
        StandardHeaderName::ReportingEndpoints => "Reporting-Endpoints"@,
        StandardHeaderName::RetryAfter => "Retry-After"@,
        StandardHeaderName::SecFetchDest => "Sec-Fetch-Dest"@,
        StandardHeaderName::SecFetchMode => "Sec-Fetch-Mode"@,
        StandardHeaderName::SecFetchSite => "Sec-Fetch-Site"@,
        StandardHeaderName::SecFetchUser => "Sec-Fetch-User"@,
        StandardHeaderName::SecPurpose => "Sec-Purpose"@,
        StandardHeaderName::SecWebsocketAccept => "Sec-Websocket-Accept"@,
        StandardHeaderName::Server => "Server"@,
        StandardHeaderName::ServerTiming => "Server-Timing"@,
        StandardHeaderName::ServiceWorkerNavigationPreload => "Service-Worker-Navigation-Preload"@,
        StandardHeaderName::SetCookie => "Set-Cookie"@,
        StandardHeaderName::SourceMap => "SourceMap"@,
        StandardHeaderName::StrictTransportSecurity => "Strict-Transport-Security"@,
        StandardHeaderName::TE => "TE"@,
        StandardHeaderName::TimingAllowOrigin => "Timing-Allow-Origin"@,
        StandardHeaderName::Trailer => "Trailer"@,
        StandardHeaderName::TransferEncoding => "Transfer-Encoding"@,
        StandardHeaderName::Upgrade => "Upgrade"@,
        StandardHeaderName::UpgradeInsecureRequests => "Upgrade-Insecure-Requests"@,
        StandardHeaderName::UserAgent => "User-Agent"@,
        StandardHeaderName::Vary => "Vary"@,
        StandardHeaderName::Via => "Via"@,
        StandardHeaderName::WWWAuthenticate => "WWW-Authenticate"@,
        StandardHeaderName::XContentTypeOptions => "X-Content-Type-Options"@,
        StandardHeaderName::XFrameOptions => "X-Frame-Options"@,
        StandardHeaderName::XXssProtection => "X-XSS-Protection"@,
    }
}

/// The standard header name a string classifies to, if any. Matching is an
/// exact, case-sensitive comparison against the canonical texts.
pub open spec fn spec_standard(s: Seq<char>) -> Option<StandardHeaderName> {
    if s == "Accept"@ {
        Some(StandardHeaderName::Accept)
    } else if s == "Accept-Charset"@ {
        Some(StandardHeaderName::AcceptCharset)
    } else if s == "Accept-Encoding"@ {
        Some(StandardHeaderName::AcceptEncoding)
    } else if s == "Accept-Language"@ {
        Some(StandardHeaderName::AcceptLanguage)
    } else if s == "Accept-Patch"@ {
        Some(StandardHeaderName::AcceptPatch)
    } else if s == "Accept-Post"@ {
        Some(StandardHeaderName::AcceptPost)
    } else if s == "Accept-Ranges"@ {
        Some(StandardHeaderName::AcceptRanges)
    } else if s == "Access-Control-Allow-Credentials"@ {
        Some(StandardHeaderName::AccessControlAllowCredentials)
    } else if s == "Access-Control-Allow-Headers"@ {
        Some(StandardHeaderName::AccessControlAllowHeaders)
    } else if s == "Access-Control-Allow-Methods"@ {
        Some(StandardHeaderName::AccessControlAllowMethods)
    } else if s == "Access-Control-Allow-Origin"@ {
        Some(StandardHeaderName::AccessControlAllowOrigin)
    } else if s == "Access-Control-Expose-Headers"@ {
        Some(StandardHeaderName::AccessControlExposeHeaders)
    } else if s == "Access-Control-Max-Age"@ {
        Some(StandardHeaderName::AccessControlMaxAge)
    } else if s == "Access-Control-Request-Headers"@ {
        Some(StandardHeaderName::AccessControlRequestHeaders)
    } else if s == "Access-Control-Request-Method"@ {
        Some(StandardHeaderName::AccessControlRequestMethod)
    } else if s == "Age"@ {
        Some(StandardHeaderName::Age)
    } else if s == "Allow"@ {
        Some(StandardHeaderName::Allow)
    } else if s == "Alt-Svc"@ {
        Some(StandardHeaderName::AltSvc)
    } else if s == "Alt-Used"@ {
        Some(StandardHeaderName::AltUsed)
    } else if s == "Authorization"@ {
        Some(StandardHeaderName::Authoritzation)
    } else if s == "Cache-Control"@ {
        Some(StandardHeaderName::CacheControl)
    } else if s == "Clear-Site-Data"@ {
        Some(StandardHeaderName::ClearSiteData)
    } else if s == "Connection"@ {
        Some(StandardHeaderName::Connection)
    } else if s == "Content-Disposition"@ {
        Some(StandardHeaderName::ContentDisposition)
    } else if s == "Content-Encoding"@ {
        Some(StandardHeaderName::ContentEncoding)
    } else if s == "Content-Language"@ {
        Some(StandardHeaderName::ContentLanguage)
    } else if s == "Content-Length"@ {
        Some(StandardHeaderName::ContentLength)
    } else if s == "Content-Location"@ {
        Some(StandardHeaderName::ContentLocation)
    } else if s == "Content-Range"@ {
        Some(StandardHeaderName::ContentRange)
    } else if s == "Content-Security-Policy"@ {
        Some(StandardHeaderName::ContentSecurityPolicy)
    } else if s == "Content-Security-Policy-Report-Only"@ {
        Some(StandardHeaderName::ContentSecurityPolicyReportOnly)
    } else if s == "Content-Type"@ {
        Some(StandardHeaderName::ContentType)
    } else if s == "Cookie"@ {
        Some(StandardHeaderName::Cookie)
    } else if s == "Cross-Origin-Embedder-Policy"@ {
        Some(StandardHeaderName::CrossOriginEmbedderPolicy)
    } else if s == "Cross-Origin-Opener-Policy"@ {
        Some(StandardHeaderName::CrossOriginOpenerPolicy)
    } else if s == "Cross-Origin-Resource-Policy"@ {
        Some(StandardHeaderName::CrossOriginResourcePolicy)
    } else if s == "Date"@ {
        Some(StandardHeaderName::Date)
    } else if s == "Device-Memory"@ {
        Some(StandardHeaderName::DeviceMemory)
    } else if s == "Etag"@ {
        Some(StandardHeaderName::Etag)
    } else if s == "Expect"@ {
        Some(StandardHeaderName::Expect)
    } else if s == "Expires"@ {
        Some(StandardHeaderName::Expires)
    } else if s == "Forwarded"@ {
        Some(StandardHeaderName::Forwarded)
    } else if s == "From"@ {
        Some(StandardHeaderName::From)
    } else if s == "Host"@ {
        Some(StandardHeaderName::Host)
    } else if s == "If-Match"@ {
        Some(StandardHeaderName::IfMatch)
    } else if s == "If-Modified-Since"@ {
        Some(StandardHeaderName::IfModifiedSince)
    } else if s == "If-None-Match"@ {
        Some(StandardHeaderName::IfNoneMatch)
    } else if s == "If-Range"@ {
        Some(StandardHeaderName::IfRange)
    } else if s == "If-Unmodified-Since"@ {
        Some(StandardHeaderName::IfUnmodifiedSince)
    } else if s == "Keep-Alive"@ {
        Some(StandardHeaderName::KeepAlive)
    } else if s == "Last-Modified"@ {
        Some(StandardHeaderName::LastModified)
    } else if s == "Link"@ {
        Some(StandardHeaderName::Link)
    } else if s == "Location"@ {
        Some(StandardHeaderName::Location)
    } else if s == "Max-Forwards"@ {
        Some(StandardHeaderName::MaxForwards)
    } else if s == "Origin"@ {
        Some(StandardHeaderName::Origin)
    } else if s == "Permissions-Policy"@ {
        Some(StandardHeaderName::PermissionsPolicy)
    } else if s == "Proxy-Authenticate"@ {
        Some(StandardHeaderName::ProxyAuthenticate)
    } else if s == "Proxy-Authorization"@ {
        Some(StandardHeaderName::ProxyAuthorization)
    } else if s == "Range"@ {
        Some(StandardHeaderName::Range)
    } else if s == "Referer"@ {
        Some(StandardHeaderName::Referer)
    } else if s == "Referer-Policy"@ {
        Some(StandardHeaderName::RefererPolicy)
    } else if s == "Reporting-Endpoints"@ {
        Some(StandardHeaderName::ReportingEndpoints)
    } else if s == "Retry-After"@ {
        Some(StandardHeaderName::RetryAfter)
    } else if s == "Sec-Fetch-Dest"@ {
        Some(StandardHeaderName::SecFetchDest)
    } else if s == "Sec-Fetch-Mode"@ {
        Some(StandardHeaderName::SecFetchMode)
    } else if s == "Sec-Fetch-Site"@ {
        Some(StandardHeaderName::SecFetchSite)
    } else if s == "Sec-Fetch-User"@ {
        Some(StandardHeaderName::SecFetchUser)
    } else if s == "Sec-Purpose"@ {
        Some(StandardHeaderName::SecPurpose)
    } else if s == "Sec-Websocket-Accept"@ {
        Some(StandardHeaderName::SecWebsocketAccept)
    } else if s == "Server"@ {
        Some(StandardHeaderName::Server)
    } else if s == "Server-Timing"@ {
        Some(StandardHeaderName::ServerTiming)
    } else if s == "Service-Worker-Navigation-Preload"@ {
        Some(StandardHeaderName::ServiceWorkerNavigationPreload)
    } else if s == "Set-Cookie"@ {
        Some(StandardHeaderName::SetCookie)
    } else if s == "SourceMap"@ {
        Some(StandardHeaderName::SourceMap)
    } else if s == "Strict-Transport-Security"@ {
        Some(StandardHeaderName::StrictTransportSecurity)
    } else if s == "TE"@ {
        Some(StandardHeaderName::TE)
    } else if s == "Timing-Allow-Origin"@ {
        Some(StandardHeaderName::TimingAllowOrigin)
    } else if s == "Trailer"@ {
        Some(StandardHeaderName::Trailer)
    } else if s == "Transfer-Encoding"@ {
        Some(StandardHeaderName::TransferEncoding)
    } else if s == "Upgrade"@ {
        Some(StandardHeaderName::Upgrade)
    } else if s == "Upgrade-Insecure-Requests"@ {
        Some(StandardHeaderName::UpgradeInsecureRequests)
    } else if s == "User-Agent"@ {
        Some(StandardHeaderName::UserAgent)
    } else if s == "Vary"@ {
        Some(StandardHeaderName::Vary)
    } else if s == "Via"@ {
        Some(StandardHeaderName::Via)
    } else if s == "WWW-Authenticate"@ {
        Some(StandardHeaderName::WWWAuthenticate)
    } else if s == "X-Content-Type-Options"@ {
        Some(StandardHeaderName::XContentTypeOptions)
    } else if s == "X-Frame-Options"@ {
        Some(StandardHeaderName::XFrameOptions)
    } else if s == "X-XSS-Protection"@ {
        Some(StandardHeaderName::XXssProtection)
    } else {
        None
    }
}

/// The error of a failed standard-name lookup; it hands the rejected name
/// back to the caller unchanged.
pub struct InvalidStandardHeaderName<'i>(pub &'i str);

impl StandardHeaderName {
    /// Look a name up in the standard table. A string outside the table is
    /// returned unchanged inside the error.
    pub fn try_from_str<'e>(value: &'e str) -> (r: Result<StandardHeaderName, InvalidStandardHeaderName<'e>>)
        ensures
            match spec_standard(value@) {
                Some(h) => r matches Ok(g) && g == h,
                None => r matches Err(e) && e.0@ == value@,
            },
    {
        if crate::text::str_eq(value, "Accept") {
            Ok(StandardHeaderName::Accept)
        } else if crate::text::str_eq(value, "Accept-Charset") {
            Ok(StandardHeaderName::AcceptCharset)
        } else if crate::text::str_eq(value, "Accept-Encoding") {
            Ok(StandardHeaderName::AcceptEncoding)
        } else if crate::text::str_eq(value, "Accept-Language") {
            Ok(StandardHeaderName::AcceptLanguage)
        } else if crate::text::str_eq(value, "Accept-Patch") {
            Ok(StandardHeaderName::AcceptPatch)
        } else if crate::text::str_eq(value, "Accept-Post") {
            Ok(StandardHeaderName::AcceptPost)
        } else if crate::text::str_eq(value, "Accept-Ranges") {
            Ok(StandardHeaderName::AcceptRanges)
        } else if crate::text::str_eq(value, "Access-Control-Allow-Credentials") {
            Ok(StandardHeaderName::AccessControlAllowCredentials)
        } else if crate::text::str_eq(value, "Access-Control-Allow-Headers") {
            Ok(StandardHeaderName::AccessControlAllowHeaders)
        } else if crate::text::str_eq(value, "Access-Control-Allow-Methods") {
            Ok(StandardHeaderName::AccessControlAllowMethods)
        } else if crate::text::str_eq(value, "Access-Control-Allow-Origin") {
            Ok(StandardHeaderName::AccessControlAllowOrigin)
        } else if crate::text::str_eq(value, "Access-Control-Expose-Headers") {
            Ok(StandardHeaderName::AccessControlExposeHeaders)
        } else if crate::text::str_eq(value, "Access-Control-Max-Age") {
            Ok(StandardHeaderName::AccessControlMaxAge)
        } else if crate::text::str_eq(value, "Access-Control-Request-Headers") {
            Ok(StandardHeaderName::AccessControlRequestHeaders)
        } else if crate::text::str_eq(value, "Access-Control-Request-Method") {
            Ok(StandardHeaderName::AccessControlRequestMethod)
        } else if crate::text::str_eq(value, "Age") {
            Ok(StandardHeaderName::Age)
        } else if crate::text::str_eq(value, "Allow") {
            Ok(StandardHeaderName::Allow)
        } else if crate::text::str_eq(value, "Alt-Svc") {
            Ok(StandardHeaderName::AltSvc)
        } else if crate::text::str_eq(value, "Alt-Used") {
            Ok(StandardHeaderName::AltUsed)
        } else if crate::text::str_eq(value, "Authorization") {
            Ok(StandardHeaderName::Authoritzation)
        } else if crate::text::str_eq(value, "Cache-Control") {
            Ok(StandardHeaderName::CacheControl)
        } else if crate::text::str_eq(value, "Clear-Site-Data") {
            Ok(StandardHeaderName::ClearSiteData)
        } else if crate::text::str_eq(value, "Connection") {
            Ok(StandardHeaderName::Connection)
        } else if crate::text::str_eq(value, "Content-Disposition") {
            Ok(StandardHeaderName::ContentDisposition)
        } else if crate::text::str_eq(value, "Content-Encoding") {
            Ok(StandardHeaderName::ContentEncoding)
        } else if crate::text::str_eq(value, "Content-Language") {
            Ok(StandardHeaderName::ContentLanguage)
        } else if crate::text::str_eq(value, "Content-Length") {
            Ok(StandardHeaderName::ContentLength)
        } else if crate::text::str_eq(value, "Content-Location") {
            Ok(StandardHeaderName::ContentLocation)
        } else if crate::text::str_eq(value, "Content-Range") {
            Ok(StandardHeaderName::ContentRange)
        } else if crate::text::str_eq(value, "Content-Security-Policy") {
            Ok(StandardHeaderName::ContentSecurityPolicy)
        } else if crate::text::str_eq(value, "Content-Security-Policy-Report-Only") {
            Ok(StandardHeaderName::ContentSecurityPolicyReportOnly)
        } else if crate::text::str_eq(value, "Content-Type") {
            Ok(StandardHeaderName::ContentType)
        } else if crate::text::str_eq(value, "Cookie") {
            Ok(StandardHeaderName::Cookie)
        } else if crate::text::str_eq(value, "Cross-Origin-Embedder-Policy") {
            Ok(StandardHeaderName::CrossOriginEmbedderPolicy)
        } else if crate::text::str_eq(value, "Cross-Origin-Opener-Policy") {
            Ok(StandardHeaderName::CrossOriginOpenerPolicy)
        } else if crate::text::str_eq(value, "Cross-Origin-Resource-Policy") {
            Ok(StandardHeaderName::CrossOriginResourcePolicy)
        } else if crate::text::str_eq(value, "Date") {
            Ok(StandardHeaderName::Date)
        } else if crate::text::str_eq(value, "Device-Memory") {
            Ok(StandardHeaderName::DeviceMemory)
        } else if crate::text::str_eq(value, "Etag") {
            Ok(StandardHeaderName::Etag)
        } else if crate::text::str_eq(value, "Expect") {
            Ok(StandardHeaderName::Expect)
        } else if crate::text::str_eq(value, "Expires") {
            Ok(StandardHeaderName::Expires)
        } else if crate::text::str_eq(value, "Forwarded") {
            Ok(StandardHeaderName::Forwarded)
        } else if crate::text::str_eq(value, "From") {
            Ok(StandardHeaderName::From)
        } else if crate::text::str_eq(value, "Host") {
            Ok(StandardHeaderName::Host)
        } else if crate::text::str_eq(value, "If-Match") {
            Ok(StandardHeaderName::IfMatch)
        } else if crate::text::str_eq(value, "If-Modified-Since") {
            Ok(StandardHeaderName::IfModifiedSince)
        } else if crate::text::str_eq(value, "If-None-Match") {
            Ok(StandardHeaderName::IfNoneMatch)
        } else if crate::text::str_eq(value, "If-Range") {
            Ok(StandardHeaderName::IfRange)
        } else if crate::text::str_eq(value, "If-Unmodified-Since") {
            Ok(StandardHeaderName::IfUnmodifiedSince)
        } else if crate::text::str_eq(value, "Keep-Alive") {
            Ok(StandardHeaderName::KeepAlive)
        } else if crate::text::str_eq(value, "Last-Modified") {
            Ok(StandardHeaderName::LastModified)
        } else if crate::text::str_eq(value, "Link") {
            Ok(StandardHeaderName::Link)
        } else if crate::text::str_eq(value, "Location") {
            Ok(StandardHeaderName::Location)
        } else if crate::text::str_eq(value, "Max-Forwards") {
            Ok(StandardHeaderName::MaxForwards)
        } else if crate::text::str_eq(value, "Origin") {
            Ok(StandardHeaderName::Origin)
        } else if crate::text::str_eq(value, "Permissions-Policy") {
            Ok(StandardHeaderName::PermissionsPolicy)
        } else if crate::text::str_eq(value, "Proxy-Authenticate") {
            Ok(StandardHeaderName::ProxyAuthenticate)
        } else if crate::text::str_eq(value, "Proxy-Authorization") {
            Ok(StandardHeaderName::ProxyAuthorization)
        } else if crate::text::str_eq(value, "Range") {
            Ok(StandardHeaderName::Range)
        } else if crate::text::str_eq(value, "Referer") {
            Ok(StandardHeaderName::Referer)
        } else if crate::text::str_eq(value, "Referer-Policy") {
            Ok(StandardHeaderName::RefererPolicy)
        } else if crate::text::str_eq(value, "Reporting-Endpoints") {
            Ok(StandardHeaderName::ReportingEndpoints)
        } else if crate::text::str_eq(value, "Retry-After") {
            Ok(StandardHeaderName::RetryAfter)
        } else if crate::text::str_eq(value, "Sec-Fetch-Dest") {
            Ok(StandardHeaderName::SecFetchDest)
        } else if crate::text::str_eq(value, "Sec-Fetch-Mode") {
            Ok(StandardHeaderName::SecFetchMode)
        } else if crate::text::str_eq(value, "Sec-Fetch-Site") {
            Ok(StandardHeaderName::SecFetchSite)
        } else if crate::text::str_eq(value, "Sec-Fetch-User") {
            Ok(StandardHeaderName::SecFetchUser)
        } else if crate::text::str_eq(value, "Sec-Purpose") {
            Ok(StandardHeaderName::SecPurpose)
        } else if crate::text::str_eq(value, "Sec-Websocket-Accept") {
            Ok(StandardHeaderName::SecWebsocketAccept)
        } else if crate::text::str_eq(value, "Server") {
            Ok(StandardHeaderName::Server)
        } else if crate::text::str_eq(value, "Server-Timing") {
            Ok(StandardHeaderName::ServerTiming)
        } else if crate::text::str_eq(value, "Service-Worker-Navigation-Preload") {
            Ok(StandardHeaderName::ServiceWorkerNavigationPreload)
        } else if crate::text::str_eq(value, "Set-Cookie") {
            Ok(StandardHeaderName::SetCookie)
        } else if crate::text::str_eq(value, "SourceMap") {
            Ok(StandardHeaderName::SourceMap)
        } else if crate::text::str_eq(value, "Strict-Transport-Security") {
            Ok(StandardHeaderName::StrictTransportSecurity)
        } else if crate::text::str_eq(value, "TE") {
            Ok(StandardHeaderName::TE)
        } else if crate::text::str_eq(value, "Timing-Allow-Origin") {
            Ok(StandardHeaderName::TimingAllowOrigin)
        } else if crate::text::str_eq(value, "Trailer") {
            Ok(StandardHeaderName::Trailer)
        } else if crate::text::str_eq(value, "Transfer-Encoding") {
            Ok(StandardHeaderName::TransferEncoding)
        } else if crate::text::str_eq(value, "Upgrade") {
            Ok(StandardHeaderName::Upgrade)
        } else if crate::text::str_eq(value, "Upgrade-Insecure-Requests") {
            Ok(StandardHeaderName::UpgradeInsecureRequests)
        } else if crate::text::str_eq(value, "User-Agent") {
            Ok(StandardHeaderName::UserAgent)
        } else if crate::text::str_eq(value, "Vary") {
            Ok(StandardHeaderName::Vary)
        } else if crate::text::str_eq(value, "Via") {
            Ok(StandardHeaderName::Via)
        } else if crate::text::str_eq(value, "WWW-Authenticate") {
            Ok(StandardHeaderName::WWWAuthenticate)
        } else if crate::text::str_eq(value, "X-Content-Type-Options") {
            Ok(StandardHeaderName::XContentTypeOptions)
        } else if crate::text::str_eq(value, "X-Frame-Options") {
            Ok(StandardHeaderName::XFrameOptions)
        } else if crate::text::str_eq(value, "X-XSS-Protection") {
            Ok(StandardHeaderName::XXssProtection)
        } else {
            Err(InvalidStandardHeaderName(value))
        }
    }
}

/// Law: the canonical text of every standard header name classifies back to
/// exactly that name.
#[verifier::rlimit(100)]
pub proof fn lemma_standard_name_round_trip(h: StandardHeaderName)
    ensures
        spec_standard(standard_name_text(h)) == Some(h),
{
    reveal_strlit("Accept");
    reveal_strlit("Accept-Charset");
    reveal_strlit("Accept-Encoding");
    reveal_strlit("Accept-Language");
    reveal_strlit("Accept-Patch");
    reveal_strlit("Accept-Post");
    reveal_strlit("Accept-Ranges");
    reveal_strlit("Access-Control-Allow-Credentials");
    reveal_strlit("Access-Control-Allow-Headers");
    reveal_strlit("Access-Control-Allow-Methods");
    reveal_strlit("Access-Control-Allow-Origin");
    reveal_strlit("Access-Control-Expose-Headers");
    reveal_strlit("Access-Control-Max-Age");
    reveal_strlit("Access-Control-Request-Headers");
    reveal_strlit("Access-Control-Request-Method");
    reveal_strlit("Age");
    reveal_strlit("Allow");
    reveal_strlit("Alt-Svc");
    reveal_strlit("Alt-Used");
    reveal_strlit("Authorization");
    reveal_strlit("Cache-Control");
    reveal_strlit("Clear-Site-Data");
    reveal_strlit("Connection");
    reveal_strlit("Content-Disposition");
    reveal_strlit("Content-Encoding");
    reveal_strlit("Content-Language");
    reveal_strlit("Content-Length");
    reveal_strlit("Content-Location");
    reveal_strlit("Content-Range");
    reveal_strlit("Content-Security-Policy");
    reveal_strlit("Content-Security-Policy-Report-Only");
    reveal_strlit("Content-Type");
    reveal_strlit("Cookie");
    reveal_strlit("Cross-Origin-Embedder-Policy");
    reveal_strlit("Cross-Origin-Opener-Policy");
    reveal_strlit("Cross-Origin-Resource-Policy");
    reveal_strlit("Date");
    reveal_strlit("Device-Memory");
    reveal_strlit("Etag");
    reveal_strlit("Expect");
    reveal_strlit("Expires");
    reveal_strlit("Forwarded");
    reveal_strlit("From");
    reveal_strlit("Host");
    reveal_strlit("If-Match");
    reveal_strlit("If-Modified-Since");
    reveal_strlit("If-None-Match");
    reveal_strlit("If-Range");
    reveal_strlit("If-Unmodified-Since");
    reveal_strlit("Keep-Alive");
    reveal_strlit("Last-Modified");
    reveal_strlit("Link");
    reveal_strlit("Location");
    reveal_strlit("Max-Forwards");
    reveal_strlit("Origin");
    reveal_strlit("Permissions-Policy");
    reveal_strlit("Proxy-Authenticate");
    reveal_strlit("Proxy-Authorization");
    reveal_strlit("Range");
    reveal_strlit("Referer");
    reveal_strlit("Referer-Policy");
    reveal_strlit("Reporting-Endpoints");
    reveal_strlit("Retry-After");
    reveal_strlit("Sec-Fetch-Dest");
    reveal_strlit("Sec-Fetch-Mode");
    reveal_strlit("Sec-Fetch-Site");
    reveal_strlit("Sec-Fetch-User");
    reveal_strlit("Sec-Purpose");
    reveal_strlit("Sec-Websocket-Accept");
    reveal_strlit("Server");
    reveal_strlit("Server-Timing");
    reveal_strlit("Service-Worker-Navigation-Preload");
    reveal_strlit("Set-Cookie");
    reveal_strlit("SourceMap");
    reveal_strlit("Strict-Transport-Security");
    reveal_strlit("TE");
    reveal_strlit("Timing-Allow-Origin");
    reveal_strlit("Trailer");
    reveal_strlit("Transfer-Encoding");
    reveal_strlit("Upgrade");
    reveal_strlit("Upgrade-Insecure-Requests");
    reveal_strlit("User-Agent");
    reveal_strlit("Vary");
    reveal_strlit("Via");
    reveal_strlit("WWW-Authenticate");
    reveal_strlit("X-Content-Type-Options");
    reveal_strlit("X-Frame-Options");
    reveal_strlit("X-XSS-Protection");
    assert("Accept"@.len() == 6);
    assert("Accept-Charset"@.len() == 14);
    assert("Accept-Encoding"@.len() == 15);
    assert("Accept-Language"@.len() == 15);
    assert("Accept-Patch"@.len() == 12);
    assert("Accept-Post"@.len() == 11);
    assert("Accept-Ranges"@.len() == 13);
    assert("Access-Control-Allow-Credentials"@.len() == 32);
    assert("Access-Control-Allow-Headers"@.len() == 28);
    assert("Access-Control-Allow-Methods"@.len() == 28);
    assert("Access-Control-Allow-Origin"@.len() == 27);
    assert("Access-Control-Expose-Headers"@.len() == 29);
    assert("Access-Control-Max-Age"@.len() == 22);
    assert("Access-Control-Request-Headers"@.len() == 30);
    assert("Access-Control-Request-Method"@.len() == 29);
    assert("Age"@.len() == 3);
    assert("Allow"@.len() == 5);
    assert("Alt-Svc"@.len() == 7);
    assert("Alt-Used"@.len() == 8);
    assert("Authorization"@.len() == 13);
    assert("Cache-Control"@.len() == 13);
    assert("Clear-Site-Data"@.len() == 15);
    assert("Connection"@.len() == 10);
    assert("Content-Disposition"@.len() == 19);
    assert("Content-Encoding"@.len() == 16);
    assert("Content-Language"@.len() == 16);
    assert("Content-Length"@.len() == 14);
    assert("Content-Location"@.len() == 16);
    assert("Content-Range"@.len() == 13);
    assert("Content-Security-Policy"@.len() == 23);
    assert("Content-Security-Policy-Report-Only"@.len() == 35);
    assert("Content-Type"@.len() == 12);
    assert("Cookie"@.len() == 6);
    assert("Cross-Origin-Embedder-Policy"@.len() == 28);
    assert("Cross-Origin-Opener-Policy"@.len() == 26);
    assert("Cross-Origin-Resource-Policy"@.len() == 28);
    assert("Date"@.len() == 4);
    assert("Device-Memory"@.len() == 13);
    assert("Etag"@.len() == 4);
    assert("Expect"@.len() == 6);
    assert("Expires"@.len() == 7);
    assert("Forwarded"@.len() == 9);
    assert("From"@.len() == 4);
    assert("Host"@.len() == 4);
    assert("If-Match"@.len() == 8);
    assert("If-Modified-Since"@.len() == 17);
    assert("If-None-Match"@.len() == 13);
    assert("If-Range"@.len() == 8);
    assert("If-Unmodified-Since"@.len() == 19);
    assert("Keep-Alive"@.len() == 10);
    assert("Last-Modified"@.len() == 13);
    assert("Link"@.len() == 4);
    assert("Location"@.len() == 8);
    assert("Max-Forwards"@.len() == 12);
    assert("Origin"@.len() == 6);
    assert("Permissions-Policy"@.len() == 18);
    assert("Proxy-Authenticate"@.len() == 18);
    assert("Proxy-Authorization"@.len() == 19);
    assert("Range"@.len() == 5);
    assert("Referer"@.len() == 7);
    assert("Referer-Policy"@.len() == 14);
    assert("Reporting-Endpoints"@.len() == 19);
    assert("Retry-After"@.len() == 11);
    assert("Sec-Fetch-Dest"@.len() == 14);
    assert("Sec-Fetch-Mode"@.len() == 14);
    assert("Sec-Fetch-Site"@.len() == 14);
    assert("Sec-Fetch-User"@.len() == 14);
    assert("Sec-Purpose"@.len() == 11);
    assert("Sec-Websocket-Accept"@.len() == 20);
    assert("Server"@.len() == 6);
    assert("Server-Timing"@.len() == 13);
    assert("Service-Worker-Navigation-Preload"@.len() == 33);
    assert("Set-Cookie"@.len() == 10);
    assert("SourceMap"@.len() == 9);
    assert("Strict-Transport-Security"@.len() == 25);
    assert("TE"@.len() == 2);
    assert("Timing-Allow-Origin"@.len() == 19);
    assert("Trailer"@.len() == 7);
    assert("Transfer-Encoding"@.len() == 17);
    assert("Upgrade"@.len() == 7);
    assert("Upgrade-Insecure-Requests"@.len() == 25);
    assert("User-Agent"@.len() == 10);
    assert("Vary"@.len() == 4);
    assert("Via"@.len() == 3);
    assert("WWW-Authenticate"@.len() == 16);
    assert("X-Content-Type-Options"@.len() == 22);
    assert("X-Frame-Options"@.len() == 15);
    assert("X-XSS-Protection"@.len() == 16);
    assert("Age"@[0] != "Via"@[0]);
    assert("Date"@[0] != "Etag"@[0]);
    assert("Date"@[0] != "From"@[0]);
    assert("Date"@[0] != "Host"@[0]);
    assert("Date"@[0] != "Link"@[0]);
    assert("Date"@[0] != "Vary"@[0]);
    assert("Etag"@[0] != "From"@[0]);
    assert("Etag"@[0] != "Host"@[0]);
    assert("Etag"@[0] != "Link"@[0]);
    assert("Etag"@[0] != "Vary"@[0]);
    assert("From"@[0] != "Host"@[0]);
    assert("From"@[0] != "Link"@[0]);
    assert("From"@[0] != "Vary"@[0]);
    assert("Host"@[0] != "Link"@[0]);
    assert("Host"@[0] != "Vary"@[0]);
    assert("Link"@[0] != "Vary"@[0]);
    assert("Allow"@[0] != "Range"@[0]);
    assert("Accept"@[0] != "Cookie"@[0]);
    assert("Accept"@[0] != "Expect"@[0]);
    assert("Accept"@[0] != "Origin"@[0]);
    assert("Accept"@[0] != "Server"@[0]);
    assert("Cookie"@[0] != "Expect"@[0]);
    assert("Cookie"@[0] != "Origin"@[0]);
    assert("Cookie"@[0] != "Server"@[0]);
    assert("Expect"@[0] != "Origin"@[0]);
    assert("Expect"@[0] != "Server"@[0]);
    assert("Origin"@[0] != "Server"@[0]);
    assert("Alt-Svc"@[0] != "Expires"@[0]);
    assert("Alt-Svc"@[0] != "Referer"@[0]);
    assert("Alt-Svc"@[0] != "Trailer"@[0]);
    assert("Alt-Svc"@[0] != "Upgrade"@[0]);
    assert("Expires"@[0] != "Referer"@[0]);
    assert("Expires"@[0] != "Trailer"@[0]);
    assert("Expires"@[0] != "Upgrade"@[0]);
    assert("Referer"@[0] != "Trailer"@[0]);
    assert("Referer"@[0] != "Upgrade"@[0]);
    assert("Trailer"@[0] != "Upgrade"@[0]);
    assert("Alt-Used"@[0] != "If-Match"@[0]);
    assert("Alt-Used"@[0] != "If-Range"@[0]);
    assert("Alt-Used"@[0] != "Location"@[0]);
    assert("If-Match"@[3] != "If-Range"@[3]);
    assert("If-Match"@[0] != "Location"@[0]);
    assert("If-Range"@[0] != "Location"@[0]);
    assert("Forwarded"@[0] != "SourceMap"@[0]);
    assert("Connection"@[0] != "Keep-Alive"@[0]);
    assert("Connection"@[0] != "Set-Cookie"@[0]);
    assert("Connection"@[0] != "User-Agent"@[0]);
    assert("Keep-Alive"@[0] != "Set-Cookie"@[0]);
    assert("Keep-Alive"@[0] != "User-Agent"@[0]);
    assert("Set-Cookie"@[0] != "User-Agent"@[0]);
    assert("Accept-Post"@[0] != "Retry-After"@[0]);
    assert("Accept-Post"@[0] != "Sec-Purpose"@[0]);
    assert("Retry-After"@[0] != "Sec-Purpose"@[0]);
    assert("Accept-Patch"@[0] != "Content-Type"@[0]);
    assert("Accept-Patch"@[0] != "Max-Forwards"@[0]);
    assert("Content-Type"@[0] != "Max-Forwards"@[0]);
    assert("Accept-Ranges"@[1] != "Authorization"@[1]);
    assert("Accept-Ranges"@[0] != "Cache-Control"@[0]);
    assert("Accept-Ranges"@[0] != "Content-Range"@[0]);
    assert("Accept-Ranges"@[0] != "Device-Memory"@[0]);
    assert("Accept-Ranges"@[0] != "If-None-Match"@[0]);
    assert("Accept-Ranges"@[0] != "Last-Modified"@[0]);
    assert("Accept-Ranges"@[0] != "Server-Timing"@[0]);
    assert("Authorization"@[0] != "Cache-Control"@[0]);
    assert("Authorization"@[0] != "Content-Range"@[0]);
    assert("Authorization"@[0] != "Device-Memory"@[0]);
    assert("Authorization"@[0] != "If-None-Match"@[0]);
    assert("Authorization"@[0] != "Last-Modified"@[0]);
    assert("Authorization"@[0] != "Server-Timing"@[0]);
    assert("Cache-Control"@[1] != "Content-Range"@[1]);
    assert("Cache-Control"@[0] != "Device-Memory"@[0]);
    assert("Cache-Control"@[0] != "If-None-Match"@[0]);
    assert("Cache-Control"@[0] != "Last-Modified"@[0]);
    assert("Cache-Control"@[0] != "Server-Timing"@[0]);
    assert("Content-Range"@[0] != "Device-Memory"@[0]);
    assert("Content-Range"@[0] != "If-None-Match"@[0]);
    assert("Content-Range"@[0] != "Last-Modified"@[0]);
    assert("Content-Range"@[0] != "Server-Timing"@[0]);
    assert("Device-Memory"@[0] != "If-None-Match"@[0]);
    assert("Device-Memory"@[0] != "Last-Modified"@[0]);
    assert("Device-Memory"@[0] != "Server-Timing"@[0]);
    assert("If-None-Match"@[0] != "Last-Modified"@[0]);
    assert("If-None-Match"@[0] != "Server-Timing"@[0]);
    assert("Last-Modified"@[0] != "Server-Timing"@[0]);
    assert("Accept-Charset"@[0] != "Content-Length"@[0]);
    assert("Accept-Charset"@[0] != "Referer-Policy"@[0]);
    assert("Accept-Charset"@[0] != "Sec-Fetch-Dest"@[0]);
    assert("Accept-Charset"@[0] != "Sec-Fetch-Mode"@[0]);
    assert("Accept-Charset"@[0] != "Sec-Fetch-Site"@[0]);
    assert("Accept-Charset"@[0] != "Sec-Fetch-User"@[0]);
    assert("Content-Length"@[0] != "Referer-Policy"@[0]);
    assert("Content-Length"@[0] != "Sec-Fetch-Dest"@[0]);
    assert("Content-Length"@[0] != "Sec-Fetch-Mode"@[0]);
    assert("Content-Length"@[0] != "Sec-Fetch-Site"@[0]);
    assert("Content-Length"@[0] != "Sec-Fetch-User"@[0]);
    assert("Referer-Policy"@[0] != "Sec-Fetch-Dest"@[0]);
    assert("Referer-Policy"@[0] != "Sec-Fetch-Mode"@[0]);
    assert("Referer-Policy"@[0] != "Sec-Fetch-Site"@[0]);
    assert("Referer-Policy"@[0] != "Sec-Fetch-User"@[0]);
    assert("Sec-Fetch-Dest"@[10] != "Sec-Fetch-Mode"@[10]);
    assert("Sec-Fetch-Dest"@[10] != "Sec-Fetch-Site"@[10]);
    assert("Sec-Fetch-Dest"@[10] != "Sec-Fetch-User"@[10]);
    assert("Sec-Fetch-Mode"@[10] != "Sec-Fetch-Site"@[10]);
    assert("Sec-Fetch-Mode"@[10] != "Sec-Fetch-User"@[10]);
    assert("Sec-Fetch-Site"@[10] != "Sec-Fetch-User"@[10]);
    assert("Accept-Encoding"@[7] != "Accept-Language"@[7]);
    assert("Accept-Encoding"@[0] != "Clear-Site-Data"@[0]);
    assert("Accept-Encoding"@[0] != "X-Frame-Options"@[0]);
    assert("Accept-Language"@[0] != "Clear-Site-Data"@[0]);
    assert("Accept-Language"@[0] != "X-Frame-Options"@[0]);
    assert("Clear-Site-Data"@[0] != "X-Frame-Options"@[0]);
    assert("Content-Encoding"@[8] != "Content-Language"@[8]);
    assert("Content-Encoding"@[8] != "Content-Location"@[8]);
    assert("Content-Encoding"@[0] != "WWW-Authenticate"@[0]);
    assert("Content-Encoding"@[0] != "X-XSS-Protection"@[0]);
    assert("Content-Language"@[9] != "Content-Location"@[9]);
    assert("Content-Language"@[0] != "WWW-Authenticate"@[0]);
    assert("Content-Language"@[0] != "X-XSS-Protection"@[0]);
    assert("Content-Location"@[0] != "WWW-Authenticate"@[0]);
    assert("Content-Location"@[0] != "X-XSS-Protection"@[0]);
    assert("WWW-Authenticate"@[0] != "X-XSS-Protection"@[0]);
    assert("If-Modified-Since"@[0] != "Transfer-Encoding"@[0]);
    assert("Permissions-Policy"@[1] != "Proxy-Authenticate"@[1]);
    assert("Content-Disposition"@[0] != "If-Unmodified-Since"@[0]);
    assert("Content-Disposition"@[0] != "Proxy-Authorization"@[0]);
    assert("Content-Disposition"@[0] != "Reporting-Endpoints"@[0]);
    assert("Content-Disposition"@[0] != "Timing-Allow-Origin"@[0]);
    assert("If-Unmodified-Since"@[0] != "Proxy-Authorization"@[0]);
    assert("If-Unmodified-Since"@[0] != "Reporting-Endpoints"@[0]);
    assert("If-Unmodified-Since"@[0] != "Timing-Allow-Origin"@[0]);
    assert("Proxy-Authorization"@[0] != "Reporting-Endpoints"@[0]);
    assert("Proxy-Authorization"@[0] != "Timing-Allow-Origin"@[0]);
    assert("Reporting-Endpoints"@[0] != "Timing-Allow-Origin"@[0]);
    assert("Access-Control-Max-Age"@[0] != "X-Content-Type-Options"@[0]);
    assert("Strict-Transport-Security"@[0] != "Upgrade-Insecure-Requests"@[0]);
    assert("Access-Control-Allow-Headers"@[21] != "Access-Control-Allow-Methods"@[21]);
    assert("Access-Control-Allow-Headers"@[0] != "Cross-Origin-Embedder-Policy"@[0]);
    assert("Access-Control-Allow-Headers"@[0] != "Cross-Origin-Resource-Policy"@[0]);
    assert("Access-Control-Allow-Methods"@[0] != "Cross-Origin-Embedder-Policy"@[0]);
    assert("Access-Control-Allow-Methods"@[0] != "Cross-Origin-Resource-Policy"@[0]);
    assert("Cross-Origin-Embedder-Policy"@[13] != "Cross-Origin-Resource-Policy"@[13]);
    assert("Access-Control-Expose-Headers"@[15] != "Access-Control-Request-Method"@[15]);
}

/// Law: a successful classification returns the member whose canonical text
/// is exactly the input string.
pub proof fn lemma_standard_name_exact(s: Seq<char>)
    ensures
        match spec_standard(s) {
            Some(h) => s == standard_name_text(h),
            None => true,
        },
{
}

/// A classified header name: a member of the standard table, or any other
/// string preserved verbatim.
#[derive(Clone, Copy, Debug)]
pub enum HeaderName<'h> {
    Standard(StandardHeaderName),
    Custom(&'h str),
}

/// `n` is what classifying `raw` yields: the standard member when `raw` is
/// in the table, and `raw` itself, unchanged, otherwise.
pub open spec fn header_name_matches(n: HeaderName, raw: Seq<char>) -> bool {
    match spec_standard(raw) {
        Some(h) => n == HeaderName::Standard(h),
        None => n matches HeaderName::Custom(c) && c@ == raw,
    }
}

impl<'h> HeaderName<'h> {
    /// Classify a raw header-name string. Total: a name in the standard
    /// table yields its `Standard` member; any other string degrades to
    /// `Custom`, holding the original string with no copy and no case
    /// folding.
    pub fn classify(raw: &'h str) -> (r: HeaderName<'h>)
        ensures
            header_name_matches(r, raw@),
    {
        match StandardHeaderName::try_from_str(raw) {
            Ok(h) => HeaderName::Standard(h),
            Err(e) => HeaderName::Custom(e.0),
        }
    }
}

/// A header cell: a classified name paired with its raw value. Both borrow
/// from the buffer the message was parsed from.
#[derive(Clone, Copy, Debug)]
pub struct Header<'h> {
    pub name: HeaderName<'h>,
    pub value: &'h str,
}

impl<'h> Header<'h> {
    /// Pair a classified name with its raw value.
    pub fn new(name: HeaderName<'h>, value: &'h str) -> (r: Self)
        ensures
            r.name == name,
            r.value == value,
    {
        Header { name, value }
    }
}

impl Default for Header<'_> {
    /// An empty header: a custom empty name with an empty value.
    fn default() -> (r: Self)
        ensures
            r.name matches HeaderName::Custom(c) && c@ == ""@,
            r.value@ == ""@,
    {
        Header { name: HeaderName::Custom(""), value: "" }
    }
}

} // verus!
