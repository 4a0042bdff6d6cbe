use asgi_server::event::{Event, HeaderLine};
use asgi_server::http::error::ProtocolError;
use asgi_server::http::exchange::{handle_request, respond, FALLBACK_STATUS};
use asgi_server::http::header::{accept_headers, line_from_parsed_name};
use asgi_server::http::response_body::{BodyPoll, HttpResponseBody};
use asgi_server::http::response_head::HttpResponseStart;
use asgi_server::http::status::check_status;

fn start(status: i64, headers: Vec<HeaderLine>) -> Event {
    Event::ResponseStart { status, headers }
}

fn body(bytes: &[u8], more_body: bool) -> Event {
    Event::ResponseBody { body: bytes.to_vec(), more_body }
}

fn line(name: &[u8], value: &[u8]) -> HeaderLine {
    (name.to_vec(), value.to_vec())
}

#[test]
fn status_range_boundaries() {
    assert_eq!(check_status(99), None);
    assert_eq!(check_status(100), Some(100));
    assert_eq!(check_status(200), Some(200));
    assert_eq!(check_status(599), Some(599));
    assert_eq!(check_status(600), None);
    assert_eq!(check_status(999), None);
    assert_eq!(check_status(-1), None);
}

#[test]
fn hello_response_end_to_end() {
    let r = handle_request(vec![start(200, vec![]), body(b"hello", false)]);
    assert_eq!(r.status, 200);
    assert!(r.headers.is_empty());
    assert_eq!(r.body_bytes(), b"hello".to_vec());
    assert_eq!(r.body_error, None);
    assert_eq!(r.app_error, None);
    assert!(r.disconnect_fired);
}

#[test]
fn missing_response_start_falls_back() {
    let r = handle_request(vec![]);
    assert_eq!(r.status, 500);
    assert!(r.headers.is_empty());
    assert!(r.body_bytes().is_empty());
    assert_eq!(r.app_error, Some(ProtocolError::ResponseStartMissing));
    assert!(!r.disconnect_fired);
}

#[test]
fn invalid_status_falls_back_with_no_bytes() {
    let r = handle_request(vec![start(999, vec![]), body(b"ignored", false)]);
    assert_eq!(r.status, FALLBACK_STATUS);
    assert!(r.chunks.is_empty());
    assert_eq!(r.app_error, Some(ProtocolError::InvalidStatusCode));
    assert!(!r.disconnect_fired);
}

#[test]
fn boundary_statuses_are_accepted() {
    assert_eq!(handle_request(vec![start(100, vec![])]).status, 100);
    assert_eq!(handle_request(vec![start(599, vec![])]).status, 599);
    assert_eq!(handle_request(vec![start(600, vec![])]).status, 500);
}

#[test]
fn body_before_start_is_rejected() {
    let r = handle_request(vec![body(b"x", false), start(200, vec![])]);
    assert_eq!(r.status, 500);
    assert_eq!(r.app_error, Some(ProtocolError::ResponseTypeMismatch));
    assert!(r.chunks.is_empty());
}

#[test]
fn second_start_aborts_body() {
    let r = handle_request(vec![start(200, vec![]), body(b"a", true), start(201, vec![])]);
    assert_eq!(r.status, 200);
    assert_eq!(r.chunks, vec![b"a".to_vec()]);
    assert_eq!(r.body_error, Some(ProtocolError::ResponseTypeMismatch));
}

#[test]
fn events_after_last_body_are_not_read() {
    let r = handle_request(vec![start(204, vec![]), body(b"ab", true), body(b"cd", false), start(200, vec![])]);
    assert_eq!(r.body_bytes(), b"abcd".to_vec());
    assert_eq!(r.body_error, None);
}

#[test]
fn channel_closing_mid_body_ends_body() {
    let r = handle_request(vec![start(200, vec![]), body(b"ab", true)]);
    assert_eq!(r.chunks, vec![b"ab".to_vec()]);
    assert_eq!(r.body_error, None);
}

#[test]
fn replay_gives_same_response() {
    let events = || vec![start(200, vec![line(b"X-A", b"1")]), body(b"he", true), body(b"llo", false)];
    let a = handle_request(events());
    let b = handle_request(events());
    assert_eq!(a.status, b.status);
    assert_eq!(a.headers, b.headers);
    assert_eq!(a.chunks, b.chunks);
    assert_eq!(a.body_error, b.body_error);
    assert_eq!(a.app_error, b.app_error);
}

#[test]
fn invalid_header_lines_are_skipped() {
    let kept = accept_headers(&vec![
        line(b"Content-Type", b"text/plain"),
        line(b"bad name", b"x"),
        line(b"x-a", b"bad\nvalue"),
        line(b"", b"v"),
        line(b"X-Tab", b"a\tb"),
    ]);
    assert_eq!(kept, vec![line(b"content-type", b"text/plain"), line(b"x-tab", b"a\tb")]);
}

#[test]
fn header_line_from_parsed_name() {
    assert_eq!(line_from_parsed_name(Some(b"a".to_vec()), &b"v".to_vec()), Some(line(b"a", b"v")));
    assert_eq!(line_from_parsed_name(None, &b"v".to_vec()), None);
    assert_eq!(line_from_parsed_name(Some(b"a".to_vec()), &vec![127u8]), None);
}

#[test]
fn head_phase_errors() {
    assert_eq!(HttpResponseStart::try_from(None).err(), Some(ProtocolError::ResponseStartMissing));
    assert_eq!(HttpResponseStart::try_from(Some(Event::Disconnect)).err(), Some(ProtocolError::ResponseTypeMismatch));
    assert_eq!(HttpResponseStart::try_from(Some(Event::Malformed)).err(), Some(ProtocolError::ResponseTypeMismatch));
    let head = HttpResponseStart::try_from(Some(start(404, vec![line(b"Server", b"x")]))).ok().unwrap();
    assert_eq!(head.status_code(), 404);
    assert_eq!(head.headers, vec![line(b"server", b"x")]);
}

#[test]
fn respond_fires_disconnect_only_on_valid_head() {
    let ok = respond(Some(start(200, vec![])));
    assert!(ok.fire_disconnect && ok.body.open && ok.error.is_none());
    let bad = respond(Some(start(42, vec![])));
    assert!(!bad.fire_disconnect && !bad.body.open);
    assert_eq!(bad.status, 500);
}

#[test]
fn body_poll_sequence() {
    let mut b = HttpResponseBody::streaming();
    assert!(matches!(b.poll_data(Some(body(b"x", true))), BodyPoll::Chunk(c) if c == b"x".to_vec()));
    assert!(b.is_open());
    assert!(matches!(b.poll_data(Some(Event::Disconnect)), BodyPoll::Failed(ProtocolError::ResponseTypeMismatch)));
    assert!(!b.is_open());
    assert!(matches!(b.poll_data(Some(body(b"y", false))), BodyPoll::End));
    let mut empty = HttpResponseBody::new();
    assert!(matches!(empty.poll_data(None), BodyPoll::End));
}
