//! Verified character-level utilities over string slices: equality,
//! leftmost substring search, and whitespace token scanning. All contracts
//! are stated over the character sequence view of the slices.

use vstd::prelude::*;
use vstd::string::StrSliceExecFns;

verus! {

/// Two slices are equal exactly when their character sequences are.
pub fn str_eq(a: &str, b: &str) -> (r: bool)
    ensures
        r == (a@ == b@),
{
    let alen = a.unicode_len();
    let blen = b.unicode_len();
    if alen != blen {
        return false;
    }
    for i in 0..alen
        invariant
            alen == a@.len(),
            alen == b@.len(),
            forall|j: int| 0 <= j < i ==> a@[j] == b@[j],
    {
        if a.get_char(i) != b.get_char(i) {
            return false;
        }
    }
    proof {
        assert(a@ =~= b@);
    }
    true
}

/// The pattern `p` occurs in `s` at position `i`.
pub open spec fn match_at(s: Seq<char>, p: Seq<char>, i: int) -> bool {
    &&& 0 <= i
    &&& i + p.len() <= s.len()
    &&& s.subrange(i, i + p.len() as int) == p
}

/// The position of the leftmost occurrence of `p` in `s` at or after `i`.
pub open spec fn first_match_from(s: Seq<char>, p: Seq<char>, i: int) -> Option<int>
    decreases s.len() - i when 0 <= i <= s.len() && p.len() >= 1
{
    if i + p.len() > s.len() {
        None
    } else if match_at(s, p, i) {
        Some(i)
    } else {
        first_match_from(s, p, i + 1)
    }
}

/// The position of the leftmost occurrence of `p` in `s`, if any.
pub open spec fn first_match(s: Seq<char>, p: Seq<char>) -> Option<int> {
    first_match_from(s, p, 0)
}

/// What a leftmost search at or after `i` promises: a found position is a
/// match and nothing before it (from `i` on) matches; a miss means nothing
/// at or after `i` matches.
pub proof fn lemma_first_match_from(s: Seq<char>, p: Seq<char>, i: int)
    requires
        0 <= i <= s.len(),
        p.len() >= 1,
    ensures
        match first_match_from(s, p, i) {
            Some(k) => {
                &&& i <= k
                &&& match_at(s, p, k)
                &&& forall|j: int| i <= j < k ==> !match_at(s, p, j)
            },
            None => forall|j: int| i <= j ==> !match_at(s, p, j),
        },
    decreases s.len() - i,
{
    if i + p.len() > s.len() {
        assert forall|j: int| i <= j implies !match_at(s, p, j) by {
            assert(j + p.len() > s.len());
        }
    } else if match_at(s, p, i) {
    } else {
        lemma_first_match_from(s, p, i + 1);
    }
}

/// `lemma_first_match_from` at the start of the slice.
pub proof fn lemma_first_match(s: Seq<char>, p: Seq<char>)
    requires
        p.len() >= 1,
    ensures
        match first_match(s, p) {
            Some(k) => {
                &&& 0 <= k
                &&& match_at(s, p, k)
                &&& forall|j: int| 0 <= j < k ==> !match_at(s, p, j)
            },
            None => forall|j: int| 0 <= j ==> !match_at(s, p, j),
        },
{
    lemma_first_match_from(s, p, 0);
}

/// Whether `p` occurs in `s` at position `i`, checked character by character.
fn match_at_exec(s: &str, p: &str, i: usize) -> (r: bool)
    requires
        i + p@.len() <= s@.len(),
        s@.len() <= usize::MAX,
    ensures
        r == match_at(s@, p@, i as int),
{
    let plen = p.unicode_len();
    for k in 0..plen
        invariant
            plen == p@.len(),
            i + p@.len() <= s@.len(),
            s@.len() <= usize::MAX,
            forall|j: int| 0 <= j < k ==> s@[i + j] == p@[j],
    {
        if s.get_char(i + k) != p.get_char(k) {
            proof {
                assert(s@.subrange(i as int, i + p@.len() as int)[k as int] != p@[k as int]);
            }
            return false;
        }
    }
    proof {
        assert(s@.subrange(i as int, i + p@.len() as int) =~= p@);
    }
    true
}

/// The position of the leftmost occurrence of the pattern `p` in `s`,
/// or `None` when `p` does not occur in `s`.
pub fn find_sub(s: &str, p: &str) -> (r: Option<usize>)
    requires
        p@.len() >= 1,
    ensures
        match r {
            Some(i) => first_match(s@, p@) == Some(i as int),
            None => first_match(s@, p@) is None,
        },
{
    let slen = s.unicode_len();
    let plen = p.unicode_len();
    if plen > slen {
        proof {
            assert(first_match_from(s@, p@, 0) is None);
        }
        return None;
    }
    let mut i: usize = 0;
    while i <= slen - plen
        invariant
            slen == s@.len(),
            plen == p@.len(),
            plen >= 1,
            plen <= slen,
            0 <= i <= slen,
            first_match(s@, p@) == first_match_from(s@, p@, i as int),
        decreases slen - i,
    {
        if match_at_exec(s, p, i) {
            proof {
                assert(first_match_from(s@, p@, i as int) == Some(i as int));
            }
            return Some(i);
        }
        proof {
            assert(first_match_from(s@, p@, i as int) == first_match_from(s@, p@, i + 1));
        }
        i = i + 1;
    }
    proof {
        assert(first_match_from(s@, p@, i as int) is None);
    }
    None
}

/// True of the ASCII whitespace characters, which separate the tokens of a
/// start line.
pub open spec fn is_ws_char(c: char) -> bool {
    c == ' ' || c == '\t' || c == '\r' || c == '\n' || c == '\u{b}' || c == '\u{c}'
}

/// Executable test for `is_ws_char`.
pub fn is_ws(c: char) -> (r: bool)
    ensures
        r == is_ws_char(c),
{
    c == ' ' || c == '\t' || c == '\r' || c == '\n' || c == '\u{b}' || c == '\u{c}'
}

/// The position of the first non-whitespace character at or after `i`.
pub open spec fn skip_ws(s: Seq<char>, i: int) -> int
    decreases s.len() - i when 0 <= i <= s.len()
{
    if i < s.len() && is_ws_char(s[i]) {
        skip_ws(s, i + 1)
    } else {
        i
    }
}

/// The position of the first whitespace character at or after `i` (the end
/// of the token starting at `i`), or the end of the slice.
pub open spec fn token_end(s: Seq<char>, i: int) -> int
    decreases s.len() - i when 0 <= i <= s.len()
{
    if i < s.len() && !is_ws_char(s[i]) {
        token_end(s, i + 1)
    } else {
        i
    }
}

/// Executable `skip_ws`.
pub fn skip_ws_exec(s: &str, from: usize) -> (r: usize)
    requires
        from <= s@.len(),
    ensures
        r == skip_ws(s@, from as int),
        from <= r <= s@.len(),
{
    let len = s.unicode_len();
    let mut i = from;
    while i < len && is_ws(s.get_char(i))
        invariant
            len == s@.len(),
            from <= i <= len,
            skip_ws(s@, from as int) == skip_ws(s@, i as int),
        decreases len - i,
    {
        i = i + 1;
    }
    i
}

/// Executable `token_end`.
pub fn token_end_exec(s: &str, from: usize) -> (r: usize)
    requires
        from <= s@.len(),
    ensures
        r == token_end(s@, from as int),
        from <= r <= s@.len(),
{
    let len = s.unicode_len();
    let mut i = from;
    while i < len && !is_ws(s.get_char(i))
        invariant
            len == s@.len(),
            from <= i <= len,
            token_end(s@, from as int) == token_end(s@, i as int),
        decreases len - i,
    {
        i = i + 1;
    }
    i
}

} // verus!
