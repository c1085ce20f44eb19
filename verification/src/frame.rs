//! Frame reader: decides, from the bytes accumulated so far on a connection,
//! whether a complete header block has arrived. A header block is everything
//! before the first occurrence of the terminator `\r\n\r\n`; bytes past the
//! terminator are discarded, since this server never reads a request body.

use vstd::prelude::*;
use crate::bytes::byte_range;

verus! {

/// An accumulated buffer is not allowed to grow past this many bytes while
/// still lacking the header terminator; past it the connection is failed
/// rather than buffering without bound.
pub const MAX_HEADER_BYTES: usize = 8192;

/// The four terminator bytes `\r\n\r\n` stand at position `i` of `s`.
pub open spec fn is_terminator_at(s: Seq<u8>, i: int) -> bool {
    &&& 0 <= i
    &&& i + 4 <= s.len()
    &&& s[i] == 13u8
    &&& s[i + 1] == 10u8
    &&& s[i + 2] == 13u8
    &&& s[i + 3] == 10u8
}

pub open spec fn contains_terminator(s: Seq<u8>) -> bool {
    exists|i: int| is_terminator_at(s, i)
}

/// `i` is the position of the first terminator in `s`.
pub open spec fn is_first_terminator(s: Seq<u8>, i: int) -> bool {
    &&& is_terminator_at(s, i)
    &&& forall|j: int| 0 <= j < i ==> !is_terminator_at(s, j)
}

/// Locates the first occurrence of the header terminator `\r\n\r\n`.
pub fn find_terminator(buf: &Vec<u8>) -> (r: Option<usize>)
    ensures
        match r {
            Some(i) => is_first_terminator(buf@, i as int),
            None => !contains_terminator(buf@),
        },
{
    if buf.len() < 4 {
        return None;
    }
    let last_start: usize = buf.len() - 4;
    let mut i: usize = 0;
    while i <= last_start
        invariant
            last_start == buf.len() - 4,
            i <= last_start + 1,
            forall|j: int| 0 <= j < i ==> !is_terminator_at(buf@, j),
        decreases last_start + 1 - i,
    {
        if buf[i] == 13u8 && buf[i + 1] == 10u8 && buf[i + 2] == 13u8 && buf[i + 3] == 10u8 {
            return Some(i);
        }
        i = i + 1;
    }
    assert forall|j: int| 0 <= j < buf@.len() implies !is_terminator_at(buf@, j) by {
        if j <= last_start {
            assert(!is_terminator_at(buf@, j));
        }
    }
    None
}

/// What the read loop should do next, given the bytes accumulated so far.
pub enum FrameStep {
    /// The terminator arrived; the payload is the header block before it.
    Complete(Vec<u8>),
    /// No terminator yet; keep reading.
    Incomplete,
    /// No terminator and the buffer is over `MAX_HEADER_BYTES`; fail the
    /// connection instead of buffering more.
    TooLarge,
}

/// One step of the framing decision for the connection read loop.
pub fn frame_step(buf: &Vec<u8>) -> (r: FrameStep)
    ensures
        match r {
            FrameStep::Complete(h) => exists|i: int|
                is_first_terminator(buf@, i) && h@ == buf@.subrange(0, i),
            FrameStep::Incomplete => !contains_terminator(buf@) && buf@.len() <= MAX_HEADER_BYTES,
            FrameStep::TooLarge => !contains_terminator(buf@) && buf@.len() > MAX_HEADER_BYTES,
        },
{
    match find_terminator(buf) {
        Some(i) => {
            let h = byte_range(buf, 0, i);
            FrameStep::Complete(h)
        },
        None => {
            if buf.len() <= MAX_HEADER_BYTES {
                FrameStep::Incomplete
            } else {
                FrameStep::TooLarge
            }
        },
    }
}

} // verus!
