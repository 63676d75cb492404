use webtransport_echo::bistream::{BistreamAction, BistreamHandler};
use webtransport_echo::channel::{HandlerStatus, ReadEvent, StopReason};
use webtransport_echo::codec::make_echo_reply;
use webtransport_echo::unistream::{UnistreamAction, UnistreamHandler};

#[test]
fn echo_reply_exact() {
    let r = make_echo_reply(&b"hello".to_vec());
    assert_eq!(r, b"Received: hello".to_vec());
}

#[test]
fn echo_reply_empty_payload() {
    let r = make_echo_reply(&Vec::new());
    assert_eq!(r, b"Received: ".to_vec());
}

#[test]
fn bistream_echoes_in_order() {
    let mut h = BistreamHandler::new();
    match h.step(ReadEvent::Chunk(b"one".to_vec())) {
        BistreamAction::Reply(r) => assert_eq!(r, b"Received: one".to_vec()),
        _ => panic!("expected a reply for the first chunk"),
    }
    match h.step(ReadEvent::Chunk(b"two".to_vec())) {
        BistreamAction::Reply(r) => assert_eq!(r, b"Received: two".to_vec()),
        _ => panic!("expected a reply for the second chunk"),
    }
    assert_eq!(h.status(), HandlerStatus::Running);
}

#[test]
fn bistream_echoes_multibyte_text() {
    let mut h = BistreamHandler::new();
    let msg = "héllo ✓".as_bytes().to_vec();
    let mut expected = b"Received: ".to_vec();
    expected.extend_from_slice("héllo ✓".as_bytes());
    match h.step(ReadEvent::Chunk(msg)) {
        BistreamAction::Reply(r) => assert_eq!(r, expected),
        _ => panic!("expected a reply for well-formed text"),
    }
}

#[test]
fn bistream_empty_chunk_is_retried() {
    let mut h = BistreamHandler::new();
    match h.step(ReadEvent::Chunk(Vec::new())) {
        BistreamAction::Retry => {}
        _ => panic!("an empty chunk must be retried, not answered or fatal"),
    }
    assert_eq!(h.status(), HandlerStatus::Running);
}

#[test]
fn bistream_decode_failure_stops_handler() {
    let mut h = BistreamHandler::new();
    match h.step(ReadEvent::Chunk(vec![0xff, 0xfe, 0xfd])) {
        BistreamAction::Stop(reason) => assert_eq!(reason, StopReason::Decode),
        _ => panic!("a malformed chunk must stop this handler"),
    }
    assert_eq!(h.status(), HandlerStatus::Stopped(StopReason::Decode));
}

#[test]
fn bistream_end_of_stream_stops_handler() {
    let mut h = BistreamHandler::new();
    match h.step(ReadEvent::EndOfStream) {
        BistreamAction::Stop(reason) => assert_eq!(reason, StopReason::EndOfStream),
        _ => panic!("end-of-stream must stop the handler"),
    }
    assert_eq!(h.status(), HandlerStatus::Stopped(StopReason::EndOfStream));
}

#[test]
fn bistream_read_failure_stops_handler() {
    let mut h = BistreamHandler::new();
    match h.step(ReadEvent::Failure) {
        BistreamAction::Stop(reason) => assert_eq!(reason, StopReason::Transport),
        _ => panic!("a read failure must stop the handler"),
    }
    assert_eq!(h.status(), HandlerStatus::Stopped(StopReason::Transport));
}

#[test]
fn bistream_write_error_stops_handler() {
    let mut h = BistreamHandler::new();
    match h.step(ReadEvent::Chunk(b"ok".to_vec())) {
        BistreamAction::Reply(_) => {}
        _ => panic!("expected a reply"),
    }
    h.on_write_error();
    assert_eq!(h.status(), HandlerStatus::Stopped(StopReason::Transport));
}

#[test]
fn unistream_delivers_chunks_unchanged() {
    let mut h = UnistreamHandler::new();
    match h.step(ReadEvent::Chunk(b"note".to_vec())) {
        UnistreamAction::Deliver(d) => assert_eq!(d, b"note".to_vec()),
        _ => panic!("expected the chunk to be delivered"),
    }
    assert_eq!(h.status(), HandlerStatus::Running);
}

#[test]
fn unistream_empty_chunk_is_retried() {
    let mut h = UnistreamHandler::new();
    match h.step(ReadEvent::Chunk(Vec::new())) {
        UnistreamAction::Retry => {}
        _ => panic!("an empty chunk must be retried"),
    }
    assert_eq!(h.status(), HandlerStatus::Running);
}

#[test]
fn unistream_decode_failure_stops_handler() {
    let mut h = UnistreamHandler::new();
    match h.step(ReadEvent::Chunk(vec![0xc0, 0x20])) {
        UnistreamAction::Stop(reason) => assert_eq!(reason, StopReason::Decode),
        _ => panic!("a malformed chunk must stop this handler"),
    }
    assert_eq!(h.status(), HandlerStatus::Stopped(StopReason::Decode));
}

#[test]
fn unistream_end_of_stream_stops_handler() {
    let mut h = UnistreamHandler::new();
    match h.step(ReadEvent::EndOfStream) {
        UnistreamAction::Stop(reason) => assert_eq!(reason, StopReason::EndOfStream),
        _ => panic!("end-of-stream must stop the handler"),
    }
    assert_eq!(h.status(), HandlerStatus::Stopped(StopReason::EndOfStream));
}
