//! End-to-end tests of the connection pipeline: framing, parsing, resolution,
//! and response synthesis, with the real content-type guesser linked in.

use staticserve::frame::{frame_step, FrameStep};
use staticserve::handler::{plan_request, RequestPlan};
use staticserve::resolve::{resolve_path, ServerConfig};
use staticserve::response::{build_response, FileOutcome};

fn config(index: &str, dir: &str, port: u16) -> ServerConfig {
    ServerConfig::new(
        Some(index.as_bytes().to_vec()),
        Some(dir.as_bytes().to_vec()),
        port,
    )
}

fn served_path(plan: RequestPlan) -> Vec<u8> {
    match plan {
        RequestPlan::Serve(path) => path,
        RequestPlan::Reject(resp) => panic!("rejected: {:?}", resp),
    }
}

#[test]
fn root_target_resolves_to_index_under_root() {
    let c = config("home.html", "/srv", 8080);
    let path = resolve_path(&c, &b"/".to_vec());
    assert_eq!(path, b"/srv/home.html".to_vec());
}

#[test]
fn other_target_is_appended_without_separator() {
    let c = config("index.html", ".", 8080);
    let path = resolve_path(&c, &b"/foo.txt".to_vec());
    assert_eq!(path, b"./foo.txt".to_vec());

    let deep = resolve_path(&c, &b"/a/b/c.css".to_vec());
    assert_eq!(deep, b"./a/b/c.css".to_vec());
}

#[test]
fn default_config_serves_index_html_from_current_dir() {
    let c = ServerConfig::new(None, None, 9000);
    assert_eq!(c.index_name, b"index.html".to_vec());
    assert_eq!(c.document_root, b".".to_vec());
    assert_eq!(c.port, 9000);
}

#[test]
fn scenario_root_request_serves_home_page() {
    let c = config("home.html", "/srv", 8080);
    let header = b"GET / HTTP/1.1\r\nHost: localhost".to_vec();
    let path = served_path(plan_request(&c, &header));
    assert_eq!(path, b"/srv/home.html".to_vec());

    let response = build_response(&path, FileOutcome::Content(b"hi".to_vec()));
    assert_eq!(
        response,
        b"HTTP/1.1 200 OK\r\nContent-type: text/html\r\nContent-length: 2\r\n\r\nhi".to_vec()
    );
}

#[test]
fn scenario_missing_file_gets_exact_404_and_nothing_else() {
    let c = config("index.html", ".", 8080);
    let header = b"GET /missing.txt HTTP/1.1\r\nHost: localhost".to_vec();
    let path = served_path(plan_request(&c, &header));
    assert_eq!(path, b"./missing.txt".to_vec());

    let response = build_response(&path, FileOutcome::NotFound);
    assert_eq!(response, b"HTTP/1.1 404 NOT FOUND\r\n\r\n".to_vec());
}

#[test]
fn binary_body_round_trips_verbatim() {
    let content = vec![0xffu8, 0x00, 0xfe, b'\r'];
    let response = build_response(&b"./data.bin".to_vec(), FileOutcome::Content(content.clone()));
    let expected_head =
        b"HTTP/1.1 200 OK\r\nContent-type: application/octet-stream\r\nContent-length: 4\r\n\r\n";
    assert_eq!(&response[..expected_head.len()], &expected_head[..]);
    assert_eq!(&response[expected_head.len()..], &content[..]);
}

#[test]
fn content_type_comes_from_the_final_segment_extension() {
    let response = build_response(&b"/srv/styles/site.css".to_vec(), FileOutcome::Content(Vec::new()));
    assert_eq!(
        response,
        b"HTTP/1.1 200 OK\r\nContent-type: text/css\r\nContent-length: 0\r\n\r\n".to_vec()
    );
}

#[test]
fn read_failure_is_not_masked_as_not_found() {
    let response = build_response(&b"./locked.txt".to_vec(), FileOutcome::ReadFailed);
    assert_eq!(
        response,
        b"HTTP/1.1 500 INTERNAL SERVER ERROR\r\n\r\n".to_vec()
    );
}

#[test]
fn malformed_first_line_is_answered_and_later_requests_still_work() {
    let c = config("index.html", ".", 8080);
    let malformed = b"GETONLY\r\nHost: localhost".to_vec();
    match plan_request(&c, &malformed) {
        RequestPlan::Reject(resp) => {
            assert_eq!(resp, b"HTTP/1.1 400 BAD REQUEST\r\n\r\n".to_vec());
        }
        RequestPlan::Serve(path) => panic!("served {:?}", path),
    }

    // the configuration is untouched and the next request is served normally
    let next = b"GET /ok.txt HTTP/1.1".to_vec();
    let path = served_path(plan_request(&c, &next));
    assert_eq!(path, b"./ok.txt".to_vec());
}

#[test]
fn distinct_requests_get_their_own_responses() {
    let c = config("index.html", "/data", 8080);
    let path_a = served_path(plan_request(&c, &b"GET /a.txt HTTP/1.1".to_vec()));
    let path_b = served_path(plan_request(&c, &b"GET /b.txt HTTP/1.1".to_vec()));
    let resp_a = build_response(&path_a, FileOutcome::Content(b"alpha".to_vec()));
    let resp_b = build_response(&path_b, FileOutcome::Content(b"beta".to_vec()));
    assert_eq!(
        resp_a,
        b"HTTP/1.1 200 OK\r\nContent-type: text/plain\r\nContent-length: 5\r\n\r\nalpha".to_vec()
    );
    assert_eq!(
        resp_b,
        b"HTTP/1.1 200 OK\r\nContent-type: text/plain\r\nContent-length: 4\r\n\r\nbeta".to_vec()
    );
}

#[test]
fn framing_waits_for_the_terminator() {
    let buf = b"GET / HTTP/1.1\r\nHost: localhost".to_vec();
    match frame_step(&buf) {
        FrameStep::Incomplete => {}
        FrameStep::Complete(h) => panic!("complete: {:?}", h),
        FrameStep::TooLarge => panic!("too large"),
    }
}

#[test]
fn framing_returns_the_block_before_the_first_terminator() {
    let buf = b"GET / HTTP/1.1\r\nHost: x\r\n\r\nleftover\r\n\r\nmore".to_vec();
    match frame_step(&buf) {
        FrameStep::Complete(h) => assert_eq!(h, b"GET / HTTP/1.1\r\nHost: x".to_vec()),
        _ => panic!("expected a complete header block"),
    }
}

#[test]
fn framing_of_a_bare_terminator_yields_an_empty_block() {
    let buf = b"\r\n\r\n".to_vec();
    match frame_step(&buf) {
        FrameStep::Complete(h) => assert_eq!(h, Vec::<u8>::new()),
        _ => panic!("expected a complete header block"),
    }
}

#[test]
fn framing_fails_an_oversized_header_block() {
    let buf = vec![b'a'; 9000];
    match frame_step(&buf) {
        FrameStep::TooLarge => {}
        _ => panic!("expected the oversized buffer to be refused"),
    }
}
