//! Response builder: given a resolved path and the outcome of reading the
//! file there, produces the full response byte sequence. An existing file
//! yields a 200 response whose headers carry the guessed content type and the
//! exact byte count of the file, followed by the file bytes verbatim (binary
//! content is never re-encoded). A missing file yields the fixed 404
//! response; a file that opened but could not be read is surfaced as a 500
//! response rather than masked as not-found.

use vstd::prelude::*;
use vstd::string::*;
use crate::bytes::{append_bytes, append_str, byte_range};

verus! {

/// The decimal digits of `n`, most significant first, as ASCII bytes.
pub open spec fn decimal_digits(n: nat) -> Seq<u8>
    decreases n,
{
    if n < 10 {
        seq![(48 + n) as u8]
    } else {
        decimal_digits(n / 10) + seq![(48 + n % 10) as u8]
    }
}

/// Formats `n` in decimal.
pub fn u64_to_decimal(n: u64) -> (r: Vec<u8>)
    ensures
        r@ == decimal_digits(n as nat),
    decreases n,
{
    if n < 10 {
        let mut r: Vec<u8> = Vec::new();
        r.push(48 + n as u8);
        assert(r@ =~= decimal_digits(n as nat));
        r
    } else {
        let mut r = u64_to_decimal(n / 10);
        r.push(48 + (n % 10) as u8);
        assert(r@ =~= decimal_digits(n as nat));
        r
    }
}

/// The content type that `mime_guess` infers from a file name, as the bytes
/// of its textual form. The mapping is a fixed extension table with
/// `application/octet-stream` as the fallback, so the result depends on the
/// name alone.
pub uninterp spec fn mime_of(name: Seq<u8>) -> Seq<u8>;

/// Relies on `mime_guess::from_path` and `MimeGuess::first_or_octet_stream`:
/// the content type guessed from the file name's extension, falling back to
/// `application/octet-stream`, rendered through `Mime`'s textual form. The
/// guess is a lookup in a fixed table, so it depends on the name alone.
#[verifier::external_body]
fn guess_mime(name: &Vec<u8>) -> (r: Vec<u8>)
    ensures
        r@ == mime_of(name@),
{
    let text = String::from_utf8_lossy(name.as_slice()).into_owned();
    let mime = mime_guess::from_path(text.as_str()).first_or_octet_stream();
    mime.to_string().into_bytes()
}

/// `a` is where the final path segment of `s` starts: just after the last
/// `/`, or at the start when `s` has no `/` at all.
pub open spec fn is_last_segment_start(s: Seq<u8>, a: int) -> bool {
    &&& 0 <= a <= s.len()
    &&& (a == 0 || s[a - 1] == 47u8)
    &&& forall|j: int| a <= j < s.len() ==> s[j] != 47u8
}

/// Extracts the final path segment of `path`: everything after the last `/`,
/// or the whole path when it has none. The content type is guessed from this
/// segment alone.
pub fn last_segment(path: &Vec<u8>) -> (r: Vec<u8>)
    ensures
        exists|a: int|
            is_last_segment_start(path@, a) && r@ == path@.subrange(a, path@.len() as int),
{
    let mut i: usize = path.len();
    while i > 0
        invariant
            i <= path@.len(),
            forall|j: int| i <= j < path@.len() ==> path@[j] != 47u8,
        decreases i,
    {
        if path[i - 1] == 47u8 {
            let r = byte_range(path, i, path.len());
            assert(is_last_segment_start(path@, i as int));
            return r;
        }
        i = i - 1;
    }
    let r = byte_range(path, 0, path.len());
    assert(is_last_segment_start(path@, 0));
    r
}

/// The fixed response for a path whose file cannot be opened: a bare status
/// line and nothing else.
pub open spec fn not_found_bytes() -> Seq<u8> {
    "HTTP/1.1 404 NOT FOUND\r\n\r\n".spec_bytes()
}

/// The fixed response for a header block whose first line has no request
/// target.
pub open spec fn bad_request_bytes() -> Seq<u8> {
    "HTTP/1.1 400 BAD REQUEST\r\n\r\n".spec_bytes()
}

/// The fixed response for a file that opened but could not be read through.
pub open spec fn internal_error_bytes() -> Seq<u8> {
    "HTTP/1.1 500 INTERNAL SERVER ERROR\r\n\r\n".spec_bytes()
}

/// The header section of a success response: status line, content type,
/// content length, and the blank line before the body.
pub open spec fn ok_header_bytes(mime: Seq<u8>, body_len: nat) -> Seq<u8> {
    "HTTP/1.1 200 OK\r\nContent-type: ".spec_bytes() + mime + "\r\nContent-length: ".spec_bytes()
        + decimal_digits(body_len) + "\r\n\r\n".spec_bytes()
}

/// A whole success response: the headers, whose content length is the exact
/// byte count of the body, followed by the body bytes verbatim.
pub open spec fn ok_response_bytes(mime: Seq<u8>, content: Seq<u8>) -> Seq<u8> {
    ok_header_bytes(mime, content.len()) + content
}

pub fn not_found_response() -> (r: Vec<u8>)
    ensures
        r@ == not_found_bytes(),
{
    "HTTP/1.1 404 NOT FOUND\r\n\r\n".as_bytes_vec()
}

pub fn bad_request_response() -> (r: Vec<u8>)
    ensures
        r@ == bad_request_bytes(),
{
    "HTTP/1.1 400 BAD REQUEST\r\n\r\n".as_bytes_vec()
}

pub fn internal_error_response() -> (r: Vec<u8>)
    ensures
        r@ == internal_error_bytes(),
{
    "HTTP/1.1 500 INTERNAL SERVER ERROR\r\n\r\n".as_bytes_vec()
}

/// Builds the success response for a file at `path` whose contents are
/// `content`: the content type is guessed from the path's final segment, the
/// content length is the file's exact byte count, and the body is the file's
/// bytes unchanged.
pub fn ok_response(path: &Vec<u8>, content: &Vec<u8>) -> (r: Vec<u8>)
    ensures
        exists|a: int|
            is_last_segment_start(path@, a) && r@ == ok_response_bytes(
                mime_of(path@.subrange(a, path@.len() as int)),
                content@,
            ),
{
    let name = last_segment(path);
    let mime = guess_mime(&name);
    let len_digits = u64_to_decimal(content.len() as u64);
    let mut r: Vec<u8> = Vec::new();
    append_str(&mut r, "HTTP/1.1 200 OK\r\nContent-type: ");
    append_bytes(&mut r, &mime);
    append_str(&mut r, "\r\nContent-length: ");
    append_bytes(&mut r, &len_digits);
    append_str(&mut r, "\r\n\r\n");
    append_bytes(&mut r, content);
    proof {
        let a = choose|a: int|
            is_last_segment_start(path@, a) && name@ == path@.subrange(a, path@.len() as int);
        assert(content.len() as u64 as nat == content@.len());
        assert(r@ =~= ok_response_bytes(mime_of(path@.subrange(a, path@.len() as int)), content@));
    }
    r
}

/// What reading the file at a resolved path produced. The distinction between
/// a file that would not open and one that opened but failed mid-read is kept,
/// so that the latter is not misreported as not-found.
pub enum FileOutcome {
    /// The file was opened and read fully; its bytes.
    Content(Vec<u8>),
    /// The file could not be opened.
    NotFound,
    /// The file opened but reading it failed.
    ReadFailed,
}

/// Builds the single response a connection receives, from the resolved path
/// and the outcome of reading the file there.
pub fn build_response(path: &Vec<u8>, outcome: FileOutcome) -> (r: Vec<u8>)
    ensures
        match outcome {
            FileOutcome::Content(c) => exists|a: int|
                is_last_segment_start(path@, a) && r@ == ok_response_bytes(
                    mime_of(path@.subrange(a, path@.len() as int)),
                    c@,
                ),
            FileOutcome::NotFound => r@ == not_found_bytes(),
            FileOutcome::ReadFailed => r@ == internal_error_bytes(),
        },
{
    match outcome {
        FileOutcome::Content(c) => ok_response(path, &c),
        FileOutcome::NotFound => not_found_response(),
        FileOutcome::ReadFailed => internal_error_response(),
    }
}

/// A success response carries its body verbatim: the bytes after the header
/// section are exactly the file's bytes, whatever they are — binary content
/// round-trips unchanged.
pub proof fn lemma_ok_response_body_round_trip(mime: Seq<u8>, content: Seq<u8>)
    ensures
        ok_response_bytes(mime, content).len() == ok_header_bytes(mime, content.len()).len()
            + content.len(),
        ok_response_bytes(mime, content).subrange(
            ok_header_bytes(mime, content.len()).len() as int,
            ok_response_bytes(mime, content).len() as int,
        ) == content,
{
    let h = ok_header_bytes(mime, content.len());
    assert((h + content).subrange(h.len() as int, (h.len() + content.len()) as int) =~= content);
}

/// A success response opens with the 200 status line, whatever the content
/// type and body.
pub proof fn lemma_ok_response_status(mime: Seq<u8>, content: Seq<u8>)
    ensures
        ok_response_bytes(mime, content).len() >= "HTTP/1.1 200 OK\r\n".spec_bytes().len(),
        ok_response_bytes(mime, content).subrange(
            0,
            "HTTP/1.1 200 OK\r\n".spec_bytes().len() as int,
        ) == "HTTP/1.1 200 OK\r\n".spec_bytes(),
{
    let s = "HTTP/1.1 200 OK\r\nContent-type: ";
    let p = "HTTP/1.1 200 OK\r\n";
    assert(s@ =~= p@ + "Content-type: "@) by {
        reveal_strlit("HTTP/1.1 200 OK\r\nContent-type: ");
        reveal_strlit("HTTP/1.1 200 OK\r\n");
        reveal_strlit("Content-type: ");
    }
    lemma_encode_utf8_concat(p@, "Content-type: "@);
    assert(s.spec_bytes() == p.spec_bytes() + "Content-type: ".spec_bytes());
    assert(ok_response_bytes(mime, content).subrange(0, p.spec_bytes().len() as int)
        =~= p.spec_bytes());
}

/// Encoding a concatenation of character sequences concatenates their
/// encodings.
proof fn lemma_encode_utf8_concat(s1: Seq<char>, s2: Seq<char>)
    ensures
        vstd::utf8::encode_utf8(s1 + s2) == vstd::utf8::encode_utf8(s1) + vstd::utf8::encode_utf8(
            s2,
        ),
    decreases s1.len(),
{
    if s1.len() == 0 {
        assert(s1 + s2 =~= s2);
        assert(vstd::utf8::encode_utf8(s1) + vstd::utf8::encode_utf8(s2) =~= vstd::utf8::encode_utf8(
            s2,
        ));
    } else {
        assert((s1 + s2).drop_first() =~= s1.drop_first() + s2);
        lemma_encode_utf8_concat(s1.drop_first(), s2);
        assert(vstd::utf8::encode_utf8(s1 + s2) =~= vstd::utf8::encode_utf8(s1)
            + vstd::utf8::encode_utf8(s2));
    }
}

} // verus!
