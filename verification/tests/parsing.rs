//! Tests of the request parser and the number formatting used in response
//! headers.

use staticserve::request::{parse_request_target, RequestError};
use staticserve::response::u64_to_decimal;

#[test]
fn target_is_the_second_space_delimited_token() {
    let header = b"GET /x HTTP/1.1\r\nHost: h".to_vec();
    assert_eq!(parse_request_target(&header), Ok(b"/x".to_vec()));
}

#[test]
fn target_runs_to_end_of_line_when_no_second_space_follows() {
    let header = b"GET /just-a-path\r\nHost: h".to_vec();
    assert_eq!(parse_request_target(&header), Ok(b"/just-a-path".to_vec()));
}

#[test]
fn target_of_a_single_line_block_without_crlf() {
    let header = b"GET / HTTP/1.1".to_vec();
    assert_eq!(parse_request_target(&header), Ok(b"/".to_vec()));
}

#[test]
fn first_line_without_a_space_is_a_structured_error() {
    let header = b"GETONLY\r\nHost: h".to_vec();
    assert_eq!(parse_request_target(&header), Err(RequestError::MissingTarget));
}

#[test]
fn empty_header_block_is_a_structured_error() {
    let header = Vec::new();
    assert_eq!(parse_request_target(&header), Err(RequestError::MissingTarget));
}

#[test]
fn doubled_space_yields_an_empty_target() {
    // two spaces in a row: the second token is the empty slice between them,
    // exactly as splitting the line on single spaces would give
    let header = b"GET  HTTP/1.1".to_vec();
    assert_eq!(parse_request_target(&header), Ok(Vec::new()));
}

#[test]
fn spaces_only_count_within_the_first_line() {
    let header = b"NOSPACE\r\nGET /x HTTP/1.1".to_vec();
    assert_eq!(parse_request_target(&header), Err(RequestError::MissingTarget));
}

#[test]
fn decimal_formatting_is_exact() {
    assert_eq!(u64_to_decimal(0), b"0".to_vec());
    assert_eq!(u64_to_decimal(7), b"7".to_vec());
    assert_eq!(u64_to_decimal(10), b"10".to_vec());
    assert_eq!(u64_to_decimal(8080), b"8080".to_vec());
    assert_eq!(u64_to_decimal(u64::MAX), b"18446744073709551615".to_vec());
}
