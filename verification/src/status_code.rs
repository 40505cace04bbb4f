//! Numeric HTTP status codes. The full table of named codes is a
//! collaborator detail; here a status code carries its numeric value, with
//! 200 ("OK") as the default. A status token is the three decimal digits of
//! a code; any other token degrades to the default, as unrecognized
//! vocabulary does everywhere in this crate.

use vstd::prelude::*;

use vstd::string::StrSliceExecFns;

verus! {

/// The numeric value that stands for "OK".
pub const STATUS_OK: u16 = 200;

/// A numeric HTTP status code.
#[derive(Clone, Copy, Debug, PartialEq, Eq, Structural)]
pub struct StatusCode {
    pub code: u16,
}

/// A decimal digit.
pub open spec fn spec_digit(c: char) -> bool {
    '0' <= c <= '9'
}

/// The value of a decimal digit.
pub open spec fn spec_digit_val(c: char) -> int {
    c as int - '0' as int
}

/// The code a status token stands for: the value of a token of exactly three
/// decimal digits; any other token falls back to the default 200.
pub open spec fn spec_status(s: Seq<char>) -> u16 {
    if s.len() == 3 && spec_digit(s[0]) && spec_digit(s[1]) && spec_digit(s[2]) {
        (100 * spec_digit_val(s[0]) + 10 * spec_digit_val(s[1]) + spec_digit_val(s[2])) as u16
    } else {
        STATUS_OK
    }
}

impl StatusCode {
    /// The status code with the given numeric value.
    pub fn new(code: u16) -> (r: Self)
        ensures
            r.code == code,
    {
        StatusCode { code }
    }

    /// Classify a status token. A token that is not three decimal digits
    /// degrades to the default 200.
    pub fn from_token(s: &str) -> (r: StatusCode)
        ensures
            r.code == spec_status(s@),
    {
        let len = s.unicode_len();
        if len != 3 {
            return StatusCode { code: STATUS_OK };
        }
        let c0 = s.get_char(0);
        let c1 = s.get_char(1);
        let c2 = s.get_char(2);
        if '0' <= c0 && c0 <= '9' && '0' <= c1 && c1 <= '9' && '0' <= c2 && c2 <= '9' {
            let code = 100 * (c0 as u16 - 48) + 10 * (c1 as u16 - 48) + (c2 as u16 - 48);
            StatusCode { code }
        } else {
            StatusCode { code: STATUS_OK }
        }
    }
}

impl Default for StatusCode {
    /// The default status code is 200, "OK".
    fn default() -> (r: Self)
        ensures
            r.code == STATUS_OK,
    {
        StatusCode { code: STATUS_OK }
    }
}

} // verus!
