//! Request parser: extracts the request target from the first line of a
//! header block. The first line runs up to the first `\r\n` (or the end of
//! the block), and the target is its second space-delimited token — the bytes
//! between the first space and the next space or end of line. A first line
//! without any space has no second token; that is a structured error, never a
//! panic, so one malformed request cannot bring the server down.

use vstd::prelude::*;
use crate::bytes::byte_range;

verus! {

/// The two line-break bytes `\r\n` stand at position `i` of `s`.
pub open spec fn is_crlf_at(s: Seq<u8>, i: int) -> bool {
    &&& 0 <= i
    &&& i + 2 <= s.len()
    &&& s[i] == 13u8
    &&& s[i + 1] == 10u8
}

/// `e` is the length of the first line of `s`: everything before the first
/// `\r\n`, or all of `s` when it has none.
pub open spec fn is_first_line_len(s: Seq<u8>, e: int) -> bool {
    &&& 0 <= e <= s.len()
    &&& forall|j: int| 0 <= j < e ==> !is_crlf_at(s, j)
    &&& (e == s.len() || is_crlf_at(s, e))
}

/// The first line of `s` (of length `e`) holds at least one space.
pub open spec fn line_has_space(s: Seq<u8>, e: int) -> bool {
    exists|j: int| 0 <= j < e && s[j] == 32u8
}

/// `s[a..b]` is the second space-delimited token of the first line of `s`
/// (whose length is `e`): `a - 1` is the first space, and the token runs to
/// the next space or to the end of the line.
pub open spec fn is_target_range(s: Seq<u8>, e: int, a: int, b: int) -> bool {
    &&& is_first_line_len(s, e)
    &&& 1 <= a <= b <= e
    &&& s[a - 1] == 32u8
    &&& forall|j: int| 0 <= j < a - 1 ==> s[j] != 32u8
    &&& forall|j: int| a <= j < b ==> s[j] != 32u8
    &&& (b == e || s[b] == 32u8)
}

/// A header block whose first line cannot yield a request target.
#[derive(Clone, Copy, Debug, PartialEq, Eq, Structural)]
pub enum RequestError {
    /// The first line has no space, hence no second token.
    MissingTarget,
}

/// Finds the length of the first line: the index of the first `\r\n`, or the
/// whole length when there is none.
fn find_line_end(s: &Vec<u8>) -> (e: usize)
    ensures
        is_first_line_len(s@, e as int),
{
    if s.len() < 2 {
        return s.len();
    }
    let last_start: usize = s.len() - 2;
    let mut i: usize = 0;
    while i <= last_start
        invariant
            last_start == s.len() - 2,
            i <= last_start + 1,
            forall|j: int| 0 <= j < i ==> !is_crlf_at(s@, j),
        decreases last_start + 1 - i,
    {
        if s[i] == 13u8 && s[i + 1] == 10u8 {
            return i;
        }
        i = i + 1;
    }
    assert forall|j: int| 0 <= j < s@.len() implies !is_crlf_at(s@, j) by {
        if j <= last_start {
            assert(!is_crlf_at(s@, j));
        }
    }
    s.len()
}

/// Finds the first space in `s[from..to]`.
fn find_space(s: &Vec<u8>, from: usize, to: usize) -> (r: Option<usize>)
    requires
        from <= to <= s@.len(),
    ensures
        match r {
            Some(p) => from <= p < to && s@[p as int] == 32u8 && forall|j: int|
                from <= j < p ==> s@[j] != 32u8,
            None => forall|j: int| from <= j < to ==> s@[j] != 32u8,
        },
{
    let mut i: usize = from;
    while i < to
        invariant
            from <= i <= to <= s@.len(),
            forall|j: int| from <= j < i ==> s@[j] != 32u8,
        decreases to - i,
    {
        if s[i] == 32u8 {
            return Some(i);
        }
        i = i + 1;
    }
    None
}

/// Extracts the request target from a header block: the second
/// space-delimited token of its first line. Returns an error exactly when the
/// first line holds no space at all.
pub fn parse_request_target(header: &Vec<u8>) -> (r: Result<Vec<u8>, RequestError>)
    ensures
        match r {
            Ok(t) => exists|e: int, a: int, b: int|
                is_target_range(header@, e, a, b) && t@ == header@.subrange(a, b),
            Err(err) => {
                &&& err == RequestError::MissingTarget
                &&& exists|e: int| is_first_line_len(header@, e) && !line_has_space(header@, e)
            },
        },
{
    let e = find_line_end(header);
    match find_space(header, 0, e) {
        None => {
            assert(is_first_line_len(header@, e as int) && !line_has_space(header@, e as int));
            Err(RequestError::MissingTarget)
        },
        Some(p) => {
            let a = p + 1;
            let b = match find_space(header, a, e) {
                Some(q) => q,
                None => e,
            };
            let t = byte_range(header, a, b);
            assert(is_target_range(header@, e as int, a as int, b as int));
            Ok(t)
        },
    }
}

} // verus!
