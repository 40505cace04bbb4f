//! The line-oriented message parser: a single pass over a fully buffered
//! input string. The input is split at the first blank-line delimiter into a
//! head and the unparsed body; the head's first line is the start line and
//! every following line is a header line. The parser fails fast and whole:
//! a malformed header line, a start line with a missing token, or a header
//! count past the store's capacity is an error, and no message is returned.
//! Unrecognized vocabulary is no error: unknown methods and versions fall
//! back to their defaults, unknown header names become custom names.

use vstd::prelude::*;

use vstd::string::StrSliceExecFns;

use crate::header::{header_name_matches, Header, HeaderName};
use crate::status_code::{spec_status, StatusCode};
use crate::store::HeaderStore;
use crate::text::{
    find_sub, first_match, lemma_first_match, skip_ws, skip_ws_exec, token_end, token_end_exec,
};
use crate::{spec_method, spec_version, Method, Request, Response, Version};

verus! {

/// The ways parsing fails. Failure is terminal for the call: no partial
/// message is returned.
#[derive(Clone, Copy, Debug, PartialEq, Eq, Structural)]
pub enum ParseError {
    /// the header count would exceed the store's capacity
    TooManyHeaders,
    /// a request start line misses a required token
    InvalidRequest,
    /// a response start line misses a required token
    InvalidResponse,
    /// a header line misses the name/value separator
    InvalidHeader,
}

/// The head of a message: everything before the first blank-line delimiter,
/// or the whole input when the delimiter is absent.
pub open spec fn spec_head(input: Seq<char>) -> Seq<char> {
    match first_match(input, "\r\n\r\n"@) {
        Some(i) => input.subrange(0, i),
        None => input,
    }
}

/// The body of a message: everything after the first blank-line delimiter,
/// unparsed, or empty when the delimiter is absent.
pub open spec fn spec_body(input: Seq<char>) -> Seq<char> {
    match first_match(input, "\r\n\r\n"@) {
        Some(i) => input.subrange(i + 4, input.len() as int),
        None => Seq::empty(),
    }
}

/// The start line of a head: everything before its first line break, or the
/// whole head when it is a single line.
pub open spec fn spec_start_line(head: Seq<char>) -> Seq<char> {
    match first_match(head, "\r\n"@) {
        Some(i) => head.subrange(0, i),
        None => head,
    }
}

/// The header section of a head: everything after the start line's line
/// break, holding one or more header lines, or nothing when the head is a
/// single line.
pub open spec fn spec_header_section(head: Seq<char>) -> Option<Seq<char>> {
    match first_match(head, "\r\n"@) {
        Some(i) => Some(head.subrange(i + 2, head.len() as int)),
        None => None,
    }
}

/// The name and value of a header line: the parts before and after the
/// first name/value separator, or nothing when the separator is absent.
pub open spec fn spec_header_pair(line: Seq<char>) -> Option<(Seq<char>, Seq<char>)> {
    match first_match(line, ": "@) {
        Some(i) => Some((line.subrange(0, i), line.subrange(i + 2, line.len() as int))),
        None => None,
    }
}

/// Why one header line is rejected, with `cap_left` free slots in the store:
/// a full store before a missing separator, and neither on a good line.
pub open spec fn spec_line_err(line: Seq<char>, cap_left: int) -> Option<ParseError> {
    if cap_left <= 0 {
        Some(ParseError::TooManyHeaders)
    } else if spec_header_pair(line) is None {
        Some(ParseError::InvalidHeader)
    } else {
        None
    }
}

/// Why a header section is rejected, with `cap_left` free slots in the
/// store: the first rejection among its lines, in order, or nothing when
/// every line fits and parses.
pub open spec fn spec_headers_err(section: Seq<char>, cap_left: int) -> Option<ParseError>
    decreases section.len()
{
    match first_match(section, "\r\n"@) {
        None => spec_line_err(section, cap_left),
        Some(i) => if 0 <= i && i + 2 <= section.len() {
            match spec_line_err(section.subrange(0, i), cap_left) {
                Some(e) => Some(e),
                None => spec_headers_err(section.subrange(i + 2, section.len() as int), cap_left - 1),
            }
        } else {
            // a found position always lies within the slice; this arm only
            // makes the termination of the recursion evident
            None
        },
    }
}

/// The name/value pairs of the header lines that are parsed and appended
/// before the first rejection, in order: all of them when the section is
/// accepted whole.
pub open spec fn spec_headers_consumed(section: Seq<char>, cap_left: int) -> Seq<(Seq<char>, Seq<char>)>
    decreases section.len()
{
    match first_match(section, "\r\n"@) {
        None => if spec_line_err(section, cap_left) is None {
            seq![spec_header_pair(section).unwrap()]
        } else {
            Seq::empty()
        },
        Some(i) => if 0 <= i && i + 2 <= section.len() {
            if spec_line_err(section.subrange(0, i), cap_left) is None {
                seq![spec_header_pair(section.subrange(0, i)).unwrap()] + spec_headers_consumed(
                    section.subrange(i + 2, section.len() as int),
                    cap_left - 1,
                )
            } else {
                Seq::empty()
            }
        } else {
            // a found position always lies within the slice; this arm only
            // makes the termination of the recursion evident
            Seq::empty()
        },
    }
}

/// `h` is the header cell a name/value pair parses to: the value verbatim,
/// the name classified.
pub open spec fn header_cell_matches(h: Header, p: (Seq<char>, Seq<char>)) -> bool {
    &&& header_name_matches(h.name, p.0)
    &&& h.value@ == p.1
}

/// The three whitespace-separated tokens of a request start line — method,
/// target, version — or nothing when one of them is missing.
pub open spec fn spec_request_tokens(start: Seq<char>) -> Option<(Seq<char>, Seq<char>, Seq<char>)> {
    let a1 = skip_ws(start, 0);
    let b1 = token_end(start, a1);
    let a2 = skip_ws(start, b1);
    let b2 = token_end(start, a2);
    let a3 = skip_ws(start, b2);
    let b3 = token_end(start, a3);
    if b1 > a1 && b2 > a2 && b3 > a3 {
        Some((start.subrange(a1, b1), start.subrange(a2, b2), start.subrange(a3, b3)))
    } else {
        None
    }
}

/// The version token and status token of a response start line: the part
/// before the first space, and the remainder cut at its own first space
/// (the reason phrase past it is discarded). Nothing when the start line
/// has no space at all.
pub open spec fn spec_response_tokens(start: Seq<char>) -> Option<(Seq<char>, Seq<char>)> {
    match first_match(start, " "@) {
        None => None,
        Some(i) => {
            let rest = start.subrange(i + 1, start.len() as int);
            let status = match first_match(rest, " "@) {
                Some(j) => rest.subrange(0, j),
                None => rest,
            };
            Some((start.subrange(0, i), status))
        },
    }
}

/// Parse one header line: the part before the first `": "` is classified as
/// the name, the part after it is the value, verbatim. A line without the
/// separator is rejected as `InvalidHeader`.
pub fn parse_header<'h>(input: &'h str) -> (r: Result<Header<'h>, ParseError>)
    ensures
        match spec_header_pair(input@) {
            Some(p) => r matches Ok(h) && header_cell_matches(h, p),
            None => r == Err::<Header, ParseError>(ParseError::InvalidHeader),
        },
{
    proof {
        reveal_strlit(": ");
        assert(": "@.len() == 2);
        lemma_first_match(input@, ": "@);
    }
    let input_len = input.unicode_len();
    match find_sub(input, ": ") {
        Some(i) => {
            let name = input.substring_char(0, i);
            let value = input.substring_char(i + 2, input_len);
            Ok(Header::new(HeaderName::classify(name), value))
        },
        None => Err(ParseError::InvalidHeader),
    }
}

/// Parse a header section — one or more header lines separated by line
/// breaks — appending each parsed header to the store in order. The first
/// rejection aborts the call: a full store is `TooManyHeaders`, a line
/// without the separator is `InvalidHeader`; headers already appended stay.
pub fn parse_headers<'r>(section: &'r str, store: &mut HeaderStore<'r>) -> (r: Result<
    (),
    ParseError,
>)
    requires
        old(store).wf(),
    ensures
        final(store).wf(),
        final(store).spec_capacity() == old(store).spec_capacity(),
        ({
            let consumed = spec_headers_consumed(
                section@,
                old(store).spec_capacity() - old(store)@.len(),
            );
            &&& final(store)@.len() == old(store)@.len() + consumed.len()
            &&& forall|j: int| 0 <= j < old(store)@.len() ==> final(store)@[j] == old(store)@[j]
            &&& forall|j: int|
                0 <= j < consumed.len() ==> header_cell_matches(
                    #[trigger] final(store)@[old(store)@.len() + j],
                    consumed[j],
                )
        }),
        match spec_headers_err(section@, old(store).spec_capacity() - old(store)@.len()) {
            Some(e) => r == Err::<(), ParseError>(e),
            None => r == Ok::<(), ParseError>(()),
        },
    decreases section@.len(),
{
    proof {
        reveal_strlit("\r\n");
        assert("\r\n"@.len() == 2);
        lemma_first_match(section@, "\r\n"@);
    }
    let sec_len = section.unicode_len();
    match find_sub(section, "\r\n") {
        None => {
            // the whole section is the last header line
            if store.len() >= store.capacity() {
                return Err(ParseError::TooManyHeaders);
            }
            match parse_header(section) {
                Ok(h) => {
                    let added = store.add_header(h);
                    proof {
                        assert(added is Ok);
                    }
                    Ok(())
                },
                Err(e) => Err(e),
            }
        },
        Some(i) => {
            let line = section.substring_char(0, i);
            if store.len() >= store.capacity() {
                return Err(ParseError::TooManyHeaders);
            }
            match parse_header(line) {
                Ok(h) => {
                    let added = store.add_header(h);
                    proof {
                        assert(added is Ok);
                    }
                    let ghost mid = store@;
                    let rest = section.substring_char(i + 2, sec_len);
                    let r = parse_headers(rest, store);
                    proof {
                        let cap_left = old(store).spec_capacity() - old(store)@.len();
                        let consumed = spec_headers_consumed(section@, cap_left);
                        let rest_consumed = spec_headers_consumed(rest@, cap_left - 1);
                        assert(consumed == seq![spec_header_pair(line@).unwrap()] + rest_consumed);
                        assert(consumed[0] == spec_header_pair(line@).unwrap());
                        assert(mid == old(store)@.push(h));
                        assert forall|j: int| 0 <= j < consumed.len() implies header_cell_matches(
                            #[trigger] store@[old(store)@.len() + j],
                            consumed[j],
                        ) by {
                            if j == 0 {
                                assert(store@[old(store)@.len() as int] == mid[old(store)@.len() as int]);
                            } else {
                                assert(store@[mid.len() + (j - 1)] == store@[old(store)@.len() + j]);
                                assert(consumed[j] == rest_consumed[j - 1]);
                            }
                        }
                    }
                    r
                },
                Err(e) => Err(e),
            }
        },
    }
}

/// Parse a complete HTTP request from a buffered input string, filling the
/// given fresh header store. The start line must hold three
/// whitespace-separated tokens — method, target, version — or the call is
/// rejected as `InvalidRequest`; unknown method and version tokens fall back
/// to their defaults, and the target token is stored verbatim. Header lines
/// are parsed as `parse_headers` does, and the unparsed remainder after the
/// blank-line delimiter becomes the body.
pub fn parse_request<'r>(input: &'r str, headers: HeaderStore<'r>) -> (r: Result<
    Request<'r, &'r str>,
    ParseError,
>)
    requires
        headers.wf(),
        headers@.len() == 0,
    ensures
        ({
            let head = spec_head(input@);
            let cap = headers.spec_capacity();
            match spec_request_tokens(spec_start_line(head)) {
                None => r == Err::<Request<&str>, ParseError>(ParseError::InvalidRequest),
                Some(t) => {
                    let herr = match spec_header_section(head) {
                        Some(sec) => spec_headers_err(sec, cap),
                        None => None,
                    };
                    match herr {
                        Some(e) => r == Err::<Request<&str>, ParseError>(e),
                        None => r matches Ok(req) && {
                            let consumed = match spec_header_section(head) {
                                Some(sec) => spec_headers_consumed(sec, cap),
                                None => Seq::empty(),
                            };
                            &&& req.method == spec_method(t.0)
                            &&& req.target@ == t.1
                            &&& req.version == spec_version(t.2)
                            &&& req.body@ == spec_body(input@)
                            &&& req.headers.wf()
                            &&& req.headers.spec_capacity() == cap
                            &&& req.headers@.len() == consumed.len()
                            &&& forall|j: int|
                                0 <= j < consumed.len() ==> header_cell_matches(
                                    #[trigger] req.headers@[j],
                                    consumed[j],
                                )
                        },
                    }
                },
            }
        }),
{
    proof {
        reveal_strlit("\r\n\r\n");
        reveal_strlit("\r\n");
        reveal_strlit("");
        assert("\r\n\r\n"@.len() == 4);
        assert(""@.len() == 0);
        lemma_first_match(input@, "\r\n\r\n"@);
    }
    let input_len = input.unicode_len();
    let (head, body): (&'r str, &'r str) = match find_sub(input, "\r\n\r\n") {
        Some(i) => (input.substring_char(0, i), input.substring_char(i + 4, input_len)),
        None => (input, ""),
    };
    proof {
        assert(head@ == spec_head(input@));
        assert(body@ =~= spec_body(input@));
        lemma_first_match(head@, "\r\n"@);
    }
    let head_len = head.unicode_len();
    let (start, sec): (&'r str, Option<&'r str>) = match find_sub(head, "\r\n") {
        Some(i) => (head.substring_char(0, i), Some(head.substring_char(i + 2, head_len))),
        None => (head, None),
    };
    proof {
        assert(start@ == spec_start_line(head@));
        match sec {
            Some(s) => {
                assert(spec_header_section(head@) == Some(s@));
            },
            None => {
                assert(spec_header_section(head@) is None);
            },
        }
    }
    let a1 = skip_ws_exec(start, 0);
    let b1 = token_end_exec(start, a1);
    let a2 = skip_ws_exec(start, b1);
    let b2 = token_end_exec(start, a2);
    let a3 = skip_ws_exec(start, b2);
    let b3 = token_end_exec(start, a3);
    if b1 == a1 || b2 == a2 || b3 == a3 {
        return Err(ParseError::InvalidRequest);
    }
    let method_tok = start.substring_char(a1, b1);
    let target_tok = start.substring_char(a2, b2);
    let version_tok = start.substring_char(a3, b3);
    let method = Method::from_token(method_tok);
    let version = Version::from_token(version_tok);
    proof {
        assert(spec_request_tokens(start@) == Some((method_tok@, target_tok@, version_tok@)));
    }
    let mut store = headers;
    match sec {
        Some(sec_str) => {
            match parse_headers(sec_str, &mut store) {
                Ok(()) => {
                    proof {
                        let cap = headers.spec_capacity();
                        assert(spec_headers_err(sec_str@, cap) is None);
                        let consumed = spec_headers_consumed(sec_str@, cap);
                        assert forall|j: int| 0 <= j < consumed.len() implies header_cell_matches(
                            #[trigger] store@[j],
                            consumed[j],
                        ) by {
                            assert(header_cell_matches(store@[headers@.len() + j], consumed[j]));
                        }
                    }
                },
                Err(e) => {
                    return Err(e);
                },
            }
        },
        None => {},
    }
    let mut request = Request::new(body, store);
    request.method(method);
    request.url_target(target_tok);
    request.version(version);
    Ok(request)
}

/// Parse a complete HTTP response from a buffered input string, filling the
/// given fresh header store. The start line must hold a version token and,
/// after a space, a status token — the reason phrase after a further space
/// is discarded — or the call is rejected as `InvalidResponse`; unknown
/// version and status tokens fall back to their defaults. Header lines are
/// parsed as `parse_headers` does, and the unparsed remainder after the
/// blank-line delimiter becomes the body.
pub fn parse_response<'r>(input: &'r str, headers: HeaderStore<'r>) -> (r: Result<
    Response<'r, &'r str>,
    ParseError,
>)
    requires
        headers.wf(),
        headers@.len() == 0,
    ensures
        ({
            let head = spec_head(input@);
            let cap = headers.spec_capacity();
            match spec_response_tokens(spec_start_line(head)) {
                None => r == Err::<Response<&str>, ParseError>(ParseError::InvalidResponse),
                Some(t) => {
                    let herr = match spec_header_section(head) {
                        Some(sec) => spec_headers_err(sec, cap),
                        None => None,
                    };
                    match herr {
                        Some(e) => r == Err::<Response<&str>, ParseError>(e),
                        None => r matches Ok(resp) && {
                            let consumed = match spec_header_section(head) {
                                Some(sec) => spec_headers_consumed(sec, cap),
                                None => Seq::empty(),
                            };
                            &&& resp.version == spec_version(t.0)
                            &&& resp.status_code.code == spec_status(t.1)
                            &&& resp.body@ == spec_body(input@)
                            &&& resp.headers.wf()
                            &&& resp.headers.spec_capacity() == cap
                            &&& resp.headers@.len() == consumed.len()
                            &&& forall|j: int|
                                0 <= j < consumed.len() ==> header_cell_matches(
                                    #[trigger] resp.headers@[j],
                                    consumed[j],
                                )
                        },
                    }
                },
            }
        }),
{
    proof {
        reveal_strlit("\r\n\r\n");
        reveal_strlit("\r\n");
        reveal_strlit(" ");
        reveal_strlit("");
        assert("\r\n\r\n"@.len() == 4);
        assert(" "@.len() == 1);
        assert(""@.len() == 0);
        lemma_first_match(input@, "\r\n\r\n"@);
    }
    let input_len = input.unicode_len();
    let (head, body): (&'r str, &'r str) = match find_sub(input, "\r\n\r\n") {
        Some(i) => (input.substring_char(0, i), input.substring_char(i + 4, input_len)),
        None => (input, ""),
    };
    proof {
        assert(head@ == spec_head(input@));
        assert(body@ =~= spec_body(input@));
        lemma_first_match(head@, "\r\n"@);
    }
    let head_len = head.unicode_len();
    let (start, sec): (&'r str, Option<&'r str>) = match find_sub(head, "\r\n") {
        Some(i) => (head.substring_char(0, i), Some(head.substring_char(i + 2, head_len))),
        None => (head, None),
    };
    proof {
        assert(start@ == spec_start_line(head@));
        match sec {
            Some(s) => {
                assert(spec_header_section(head@) == Some(s@));
            },
            None => {
                assert(spec_header_section(head@) is None);
            },
        }
        lemma_first_match(start@, " "@);
    }
    let start_len = start.unicode_len();
    let (version_tok, status_tok): (&'r str, &'r str) = match find_sub(start, " ") {
        Some(i) => {
            let rest = start.substring_char(i + 1, start_len);
            proof {
                lemma_first_match(rest@, " "@);
            }
            let rest_len = rest.unicode_len();
            let status = match find_sub(rest, " ") {
                Some(j) => rest.substring_char(0, j),
                None => rest,
            };
            (start.substring_char(0, i), status)
        },
        None => {
            return Err(ParseError::InvalidResponse);
        },
    };
    let version = Version::from_token(version_tok);
    let status_code = StatusCode::from_token(status_tok);
    proof {
        assert(spec_response_tokens(start@) == Some((version_tok@, status_tok@)));
    }
    let mut store = headers;
    match sec {
        Some(sec_str) => {
            match parse_headers(sec_str, &mut store) {
                Ok(()) => {
                    proof {
                        let cap = headers.spec_capacity();
                        assert(spec_headers_err(sec_str@, cap) is None);
                        let consumed = spec_headers_consumed(sec_str@, cap);
                        assert forall|j: int| 0 <= j < consumed.len() implies header_cell_matches(
                            #[trigger] store@[j],
                            consumed[j],
                        ) by {
                            assert(header_cell_matches(store@[headers@.len() + j], consumed[j]));
                        }
                    }
                },
                Err(e) => {
                    return Err(e);
                },
            }
        },
        None => {},
    }
    let mut response = Response::new(body, store);
    response.version(version);
    response.status_code(status_code);
    Ok(response)
}

} // verus!
