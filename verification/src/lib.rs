//! A minimal HTTP/1.x message model and parser.
//!
//! A raw text buffer holding a complete HTTP request or response is turned
//! into a structured, borrowed view: the start-line fields, a bounded
//! collection of name/value header pairs, and the unparsed body slice.
//! Structural malformations (a header line without a separator, a start line
//! with a missing token, more headers than the store can hold) are errors;
//! unrecognized vocabulary (an unknown method, version or header name)
//! degrades to a default or to a custom variant instead.

use vstd::prelude::*;

pub mod header;
pub mod parsers;
pub mod status_code;
pub mod store;
mod text;

pub use header::{Header, HeaderName, InvalidStandardHeaderName, StandardHeaderName};
pub use parsers::{parse_header, parse_headers, parse_request, parse_response, ParseError};
pub use status_code::StatusCode;
pub use store::{CapacityExceeded, HeaderStore};

verus! {

/// The HTTP request methods.
#[derive(Clone, Copy, Debug, PartialEq, Eq, Structural)]
pub enum Method {
    /// request a representation of the specified resource
    Get,
    /// identical to `Get`, but does not receive a response body
    Head,
    /// submit an entity to a specified resource
    Post,
    /// apply partial modifications to a resource
    Patch,
    /// replace all current representations of the target resource with the request payload
    Put,
    /// delete the specified resource
    Delete,
    /// perform a message loopback test along the path to the target resource
    Trace,
    /// establish a tunnel to the server identified by the target resource
    Connect,
    /// describe the communication options for the target resource
    Options,
}

/// The method a token stands for. An unrecognized token falls back to the
/// default method `Get` by design: vocabulary is treated leniently.
pub open spec fn spec_method(s: Seq<char>) -> Method {
    if s == "GET"@ {
        Method::Get
    } else if s == "HEAD"@ {
        Method::Head
    } else if s == "POST"@ {
        Method::Post
    } else if s == "PATCH"@ {
        Method::Patch
    } else if s == "PUT"@ {
        Method::Put
    } else if s == "DELETE"@ {
        Method::Delete
    } else if s == "TRACE"@ {
        Method::Trace
    } else if s == "CONNECT"@ {
        Method::Connect
    } else if s == "OPTIONS"@ {
        Method::Options
    } else {
        Method::Get
    }
}

impl Method {
    /// Classify a method token. Unrecognized tokens degrade to `Get`.
    pub fn from_token(s: &str) -> (r: Method)
        ensures
            r == spec_method(s@),
    {
        if crate::text::str_eq(s, "GET") {
            Method::Get
        } else if crate::text::str_eq(s, "HEAD") {
            Method::Head
        } else if crate::text::str_eq(s, "POST") {
            Method::Post
        } else if crate::text::str_eq(s, "PATCH") {
            Method::Patch
        } else if crate::text::str_eq(s, "PUT") {
            Method::Put
        } else if crate::text::str_eq(s, "DELETE") {
            Method::Delete
        } else if crate::text::str_eq(s, "TRACE") {
            Method::Trace
        } else if crate::text::str_eq(s, "CONNECT") {
            Method::Connect
        } else if crate::text::str_eq(s, "OPTIONS") {
            Method::Options
        } else {
            Method::Get
        }
    }
}

impl Default for Method {
    /// The default method is `Get`.
    fn default() -> (r: Self)
        ensures
            r == Method::Get,
    {
        Method::Get
    }
}

/// The HTTP protocol versions.
#[derive(Clone, Copy, Debug, PartialEq, Eq, Structural)]
pub enum Version {
    /// HTTP/1.0
    V10,
    /// HTTP/1.1
    V11,
    /// HTTP/2.0
    V20,
}

/// The version a token stands for. An unrecognized token falls back to the
/// default version `V11` by design: vocabulary is treated leniently.
pub open spec fn spec_version(s: Seq<char>) -> Version {
    if s == "HTTP/1.0"@ {
        Version::V10
    } else if s == "HTTP/1.1"@ {
        Version::V11
    } else if s == "HTTP/2.0"@ {
        Version::V20
    } else {
        Version::V11
    }
}

impl Version {
    /// Classify a version token. Unrecognized tokens degrade to `V11`.
    pub fn from_token(s: &str) -> (r: Version)
        ensures
            r == spec_version(s@),
    {
        if crate::text::str_eq(s, "HTTP/1.0") {
            Version::V10
        } else if crate::text::str_eq(s, "HTTP/1.1") {
            Version::V11
        } else if crate::text::str_eq(s, "HTTP/2.0") {
            Version::V20
        } else {
            Version::V11
        }
    }
}

impl Default for Version {
    /// The default version is `V11`.
    fn default() -> (r: Self)
        ensures
            r == Version::V11,
    {
        Version::V11
    }
}

/// An HTTP request: method, target, version, a bounded store of headers, and
/// an opaque body payload that is stored but never interpreted. The target
/// and the headers borrow from the buffer the request was parsed from.
#[derive(Debug)]
pub struct Request<'r, B> {
    pub method: Method,
    pub target: &'r str,
    pub version: Version,
    pub headers: HeaderStore<'r>,
    pub body: B,
}

impl<'r, B> Request<'r, B> {
    /// A request with every start-line field defaulted: method `Get`,
    /// target "/", version `V11`, the given header store and body.
    pub fn new(body: B, headers: HeaderStore<'r>) -> (r: Self)
        ensures
            r.method == Method::Get,
            r.target@ == "/"@,
            r.version == Version::V11,
            r.headers == headers,
            r.body == body,
    {
        Request { method: Method::default(), target: "/", version: Version::default(), headers, body }
    }

    /// Replace the method.
    pub fn method(&mut self, method: Method)
        ensures
            *final(self) == (Request { method, ..*old(self) }),
    {
        self.method = method;
    }

    /// Replace the target.
    pub fn url_target(&mut self, target: &'r str)
        ensures
            *final(self) == (Request { target, ..*old(self) }),
    {
        self.target = target;
    }

    /// Replace the version.
    pub fn version(&mut self, version: Version)
        ensures
            *final(self) == (Request { version, ..*old(self) }),
    {
        self.version = version;
    }
}

/// An HTTP response: version, status code, a bounded store of headers, and
/// an opaque body payload that is stored but never interpreted. The headers
/// borrow from the buffer the response was parsed from.
#[derive(Debug)]
pub struct Response<'r, B> {
    pub version: Version,
    pub status_code: StatusCode,
    pub headers: HeaderStore<'r>,
    pub body: B,
}

impl<'r, B> Response<'r, B> {
    /// A response with every start-line field defaulted: version `V11`,
    /// status 200, the given header store and body.
    pub fn new(body: B, headers: HeaderStore<'r>) -> (r: Self)
        ensures
            r.version == Version::V11,
            r.status_code.code == status_code::STATUS_OK,
            r.headers == headers,
            r.body == body,
    {
        Response {
            version: Version::default(),
            status_code: StatusCode::default(),
            headers,
            body,
        }
    }

    /// Replace the version.
    pub fn version(&mut self, version: Version)
        ensures
            *final(self) == (Response { version, ..*old(self) }),
    {
        self.version = version;
    }

    /// Replace the status code.
    pub fn status_code(&mut self, code: StatusCode)
        ensures
            *final(self) == (Response { status_code: code, ..*old(self) }),
    {
        self.status_code = code;
    }
}

} // verus!
