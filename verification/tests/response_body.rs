//! Tests of the response-body state machine: draining, trailers,
//! cancellation and the read lock.

use bytes::Bytes;

use pyqwest::response::{
    outcome_signal, take_content, ContentState, FrameEvent, FrameScript, HostSignal, ReadOutcome,
    ReadStep, ResponseBody, StreamEnd, Trailers,
};

fn data(bytes: &'static [u8]) -> FrameEvent {
    FrameEvent::Data(Bytes::from_static(bytes))
}

fn trailer(name: &[u8], value: &[u8]) -> FrameEvent {
    FrameEvent::Trailer(Trailers { entries: vec![(name.to_vec(), value.to_vec())] })
}

fn filled(frames: Vec<FrameEvent>, end: StreamEnd) -> ResponseBody {
    let mut body = ResponseBody::new_pending();
    body.fill(FrameScript { frames, end });
    body
}

fn expect_chunk(body: &mut ResponseBody, bytes: &'static [u8]) {
    match body.chunk() {
        ReadOutcome::Chunk(c) => assert_eq!(c, Bytes::from_static(bytes)),
        _ => panic!("expected a data chunk"),
    }
}

#[test]
fn frames_then_trailer_end_and_trailers_only_after_end() {
    // Server sends frames "he", "llo", then trailer x-trace: 1. chunk()
    // returns "he", "llo", then end; trailers are not available before
    // the end and are exactly the sent metadata after it.
    let mut body = filled(
        vec![data(b"he"), data(b"llo"), trailer(b"x-trace", b"1")],
        StreamEnd::Eof,
    );
    assert!(body.trailers().is_none());
    expect_chunk(&mut body, b"he");
    assert!(body.trailers().is_none());
    expect_chunk(&mut body, b"llo");
    assert!(body.trailers().is_none());
    assert!(matches!(body.chunk(), ReadOutcome::Ended));
    let t = body.trailers().expect("trailers after the end");
    assert_eq!(t.entries, vec![(b"x-trace".to_vec(), b"1".to_vec())]);
    // Reads past the end keep returning end.
    assert!(matches!(body.chunk(), ReadOutcome::Ended));
}

#[test]
fn close_mid_drain_makes_all_reads_end() {
    // Reading one of three chunks and closing: every later read returns
    // end, no error, and the connection resource is released.
    let mut body = filled(vec![data(b"a"), data(b"b"), data(b"c")], StreamEnd::Eof);
    expect_chunk(&mut body, b"a");
    body.close();
    assert!(body.released);
    assert!(matches!(body.chunk(), ReadOutcome::Ended));
    assert!(matches!(body.chunk(), ReadOutcome::Ended));
}

#[test]
fn close_is_idempotent_and_keeps_trailers() {
    let mut body = filled(vec![trailer(b"k", b"v"), data(b"rest")], StreamEnd::Eof);
    // The trailer frame is passed while reaching the data frame.
    expect_chunk(&mut body, b"rest");
    assert!(body.trailers().is_some());
    body.close();
    let trailers_after_first = body.trailers().map(|t| t.entries.clone());
    body.close();
    let trailers_after_second = body.trailers().map(|t| t.entries.clone());
    assert_eq!(trailers_after_first, trailers_after_second);
    assert!(body.cancelled);
    assert!(body.released);
    assert!(matches!(body.chunk(), ReadOutcome::Ended));
}

#[test]
fn close_before_trailer_frame_loses_trailers() {
    // Cancellation racing ahead of the trailer frame leaves trailers
    // permanently absent.
    let mut body = filled(vec![data(b"x"), trailer(b"late", b"1")], StreamEnd::Eof);
    expect_chunk(&mut body, b"x");
    body.close();
    assert!(matches!(body.chunk(), ReadOutcome::Ended));
    assert!(body.trailers().is_none());
}

#[test]
fn transport_failure_is_raised_once_then_reads_end() {
    let mut body = filled(vec![data(b"partial")], StreamEnd::Failed("reset".to_string()));
    expect_chunk(&mut body, b"partial");
    match body.chunk() {
        ReadOutcome::Failed(m) => assert_eq!(m, "reset"),
        _ => panic!("expected the transport failure"),
    }
    assert!(matches!(body.chunk(), ReadOutcome::Ended));
}

#[test]
fn unknown_frames_are_skipped() {
    let mut body = filled(
        vec![FrameEvent::Unknown, data(b"seen"), FrameEvent::Unknown],
        StreamEnd::Eof,
    );
    expect_chunk(&mut body, b"seen");
    assert!(matches!(body.chunk(), ReadOutcome::Ended));
}

#[test]
fn pending_body_reads_end_once_closed() {
    let mut body = ResponseBody::new_pending();
    body.close();
    assert!(matches!(body.chunk(), ReadOutcome::Ended));
}

#[test]
fn fill_after_close_abandons_the_stream() {
    let mut body = ResponseBody::new_pending();
    body.close();
    body.fill(FrameScript { frames: vec![data(b"late")], end: StreamEnd::Eof });
    assert!(matches!(body.chunk(), ReadOutcome::Ended));
}

#[test]
fn read_lock_serializes_readers() {
    let mut body = filled(vec![data(b"a")], StreamEnd::Eof);
    assert!(body.begin_read());
    // A second reader cannot enter while a read is in flight.
    assert!(!body.begin_read());
    body.end_read();
    assert!(body.begin_read());
    body.end_read();
}

#[test]
fn try_close_defers_to_a_read_in_flight() {
    let mut body = filled(vec![data(b"a"), data(b"b")], StreamEnd::Eof);
    assert!(body.begin_read());
    // The non-blocking close cannot complete while the read holds the
    // lock, but the cancel flag is set at once.
    assert!(!body.try_close());
    assert!(body.cancelled);
    assert!(!body.released);
    // The in-flight read observes the cancel signal at its next step.
    match body.read_step() {
        ReadStep::Yield(ReadOutcome::Ended) => {},
        _ => panic!("a cancelled read must end at the next step"),
    }
    body.end_read();
    // With the lock free, the close completes.
    assert!(body.try_close());
    assert!(body.released);
}

#[test]
fn try_close_completes_synchronously_when_lock_free() {
    let mut body = filled(vec![data(b"a")], StreamEnd::Eof);
    assert!(body.try_close());
    assert!(body.cancelled);
    assert!(body.released);
    assert!(matches!(body.chunk(), ReadOutcome::Ended));
}

#[test]
fn outcome_signal_maps_to_host_iteration() {
    match outcome_signal(ReadOutcome::Chunk(Bytes::from_static(b"c"))) {
        HostSignal::Item(c) => assert_eq!(c, Bytes::from_static(b"c")),
        _ => panic!("a chunk is handed to the caller"),
    }
    assert!(matches!(outcome_signal(ReadOutcome::Ended), HostSignal::Stop));
    match outcome_signal(ReadOutcome::Failed("why".to_string())) {
        HostSignal::Raise(m) => assert_eq!(m, "why"),
        _ => panic!("a failure is raised"),
    }
}

#[test]
fn drain_all_collects_every_chunk_and_the_trailers() {
    let mut body = filled(
        vec![data(b"he"), FrameEvent::Unknown, data(b"llo"), trailer(b"x-trace", b"1")],
        StreamEnd::Eof,
    );
    let (chunks, terminal) = body.drain_all();
    assert_eq!(chunks.len(), 2);
    assert_eq!(chunks[0], Bytes::from_static(b"he"));
    assert_eq!(chunks[1], Bytes::from_static(b"llo"));
    assert!(matches!(terminal, ReadOutcome::Ended));
    let t = body.trailers().expect("trailers after the full drain");
    assert_eq!(t.entries, vec![(b"x-trace".to_vec(), b"1".to_vec())]);
}

#[test]
fn drain_all_surfaces_a_transport_failure_after_the_data() {
    let mut body = filled(vec![data(b"part")], StreamEnd::Failed("cut".to_string()));
    let (chunks, terminal) = body.drain_all();
    assert_eq!(chunks.len(), 1);
    assert_eq!(chunks[0], Bytes::from_static(b"part"));
    match terminal {
        ReadOutcome::Failed(m) => assert_eq!(m, "cut"),
        _ => panic!("the failure surfaces at the end of the drain"),
    }
}

#[test]
fn drain_all_on_a_closed_body_yields_nothing() {
    let mut body = filled(vec![data(b"a")], StreamEnd::Eof);
    body.close();
    let (chunks, terminal) = body.drain_all();
    assert!(chunks.is_empty());
    assert!(matches!(terminal, ReadOutcome::Ended));
}

#[test]
fn content_is_taken_exactly_once() {
    let body = filled(vec![data(b"only")], StreamEnd::Eof);
    let mut slot = ContentState::Fresh(body);
    let first = take_content(&mut slot);
    assert!(first.is_some());
    let second = take_content(&mut slot);
    assert!(second.is_none());
    let mut taken = first.unwrap();
    match taken.chunk() {
        ReadOutcome::Chunk(c) => assert_eq!(c, Bytes::from_static(b"only")),
        _ => panic!("the taken body still drains"),
    }
}
