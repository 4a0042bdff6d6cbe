use asgi_server::event::Event;
use asgi_server::http::request_message::{HttpRequestMessage, RequestInput, RequestTranslator, TranslatorState};

fn data(bytes: &[u8], end_of_stream: bool) -> RequestInput {
    RequestInput::Data { bytes: bytes.to_vec(), end_of_stream }
}

fn body(bytes: &[u8], more_body: bool) -> Event {
    Event::RequestBody { body: bytes.to_vec(), more_body }
}

#[test]
fn two_chunks_then_close_without_disconnect() {
    let events = HttpRequestMessage::stream_body(vec![data(b"abc", false), data(b"def", true), RequestInput::StreamEnd]);
    assert_eq!(events, vec![body(b"abc", true), body(b"def", false)]);
}

#[test]
fn disconnect_after_first_chunk_cuts_off_body() {
    let events = HttpRequestMessage::stream_body(vec![
        data(b"abc", false),
        RequestInput::DisconnectSignal,
        data(b"def", true),
        RequestInput::StreamEnd,
        RequestInput::DisconnectSignal,
    ]);
    assert_eq!(events, vec![body(b"abc", true), Event::Disconnect]);
}

#[test]
fn stream_end_appends_terminal_event() {
    let events = HttpRequestMessage::stream_body(vec![data(b"abc", false), data(b"def", false), RequestInput::StreamEnd]);
    assert_eq!(events, vec![body(b"abc", true), body(b"def", true), body(b"", false)]);
}

#[test]
fn empty_body_gives_one_terminal_event() {
    let events = HttpRequestMessage::stream_body(vec![RequestInput::StreamEnd]);
    assert_eq!(events, vec![body(b"", false)]);
}

#[test]
fn read_error_ends_body_gracefully() {
    let events = HttpRequestMessage::stream_body(vec![
        data(b"abc", false),
        RequestInput::ReadError,
        data(b"xyz", false),
        RequestInput::StreamEnd,
    ]);
    assert_eq!(events, vec![body(b"abc", true), body(b"", false)]);
}

#[test]
fn disconnect_after_body_end_is_delivered_once() {
    let events = HttpRequestMessage::stream_body(vec![
        data(b"abc", true),
        RequestInput::StreamEnd,
        RequestInput::DisconnectSignal,
        RequestInput::DisconnectSignal,
    ]);
    assert_eq!(events, vec![body(b"abc", false), Event::Disconnect]);
}

#[test]
fn translator_steps_through_phases() {
    let mut t = RequestTranslator::new();
    assert_eq!(t.state, TranslatorState::Forwarding);
    assert_eq!(t.step(data(b"a", false)), Some(body(b"a", true)));
    assert_eq!(t.state, TranslatorState::Forwarding);
    assert_eq!(t.step(RequestInput::StreamEnd), Some(body(b"", false)));
    assert_eq!(t.state, TranslatorState::BodyEnded);
    assert_eq!(t.step(data(b"b", false)), None);
    assert_eq!(t.step(RequestInput::DisconnectSignal), Some(Event::Disconnect));
    assert_eq!(t.state, TranslatorState::Disconnected);
    assert_eq!(t.step(RequestInput::StreamEnd), None);
}
