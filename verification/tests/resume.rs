//! Downloads driven from end to end over canned streams.

use std::collections::VecDeque;
use std::io;
use std::io::ErrorKind;

use s3_resume::error::{is_retryable, IoError};
use s3_resume::reader::{Action, Event, ResumableS3Read, StreamResumeConfig};

/// What the body stream does when it is polled.
enum MockChunk {
    Data(Vec<u8>),
    Error(io::ErrorKind),
    Pending,
    // No further chunks are a clean end.
}

/// What comes of a reconnect.
enum ReconnectResponse {
    Success(Vec<MockChunk>),
    Failure(io::ErrorKind),
    Pending,
}

/// What the consumer sees of one poll.
#[derive(Debug, PartialEq)]
enum Polled {
    Read(usize),
    Failed(IoError),
    Pending,
}

/// Does what a reader asks for, with canned streams in place of a service.
struct Driver {
    reader: ResumableS3Read,
    inner: VecDeque<MockChunk>,
    responses: VecDeque<ReconnectResponse>,
    calls: Vec<u64>,
    delays: Vec<u64>,
}

fn driver(
    responses: Vec<ReconnectResponse>,
    inner: Vec<MockChunk>,
    total_size: Option<u64>,
    config: StreamResumeConfig,
) -> Driver {
    Driver {
        reader: ResumableS3Read::from_parts("k".to_string(), total_size, config),
        inner: VecDeque::from(inner),
        responses: VecDeque::from(responses),
        calls: Vec::new(),
        delays: Vec::new(),
    }
}

impl Driver {
    fn poll_inner(&mut self, out: &mut Vec<u8>, room: usize) -> Event {
        let before = out.len();
        match self.inner.pop_front() {
            Some(MockChunk::Data(d)) => {
                let n = d.len().min(room);
                out.extend_from_slice(&d[..n]);
                if n < d.len() {
                    self.inner.push_front(MockChunk::Data(d[n..].to_vec()));
                }
                Event::Filled { before, after: out.len() }
            }
            Some(MockChunk::Error(kind)) => {
                Event::ReadFailed(IoError::observe(&io::Error::new(kind, "mock stream error")))
            }
            Some(MockChunk::Pending) => Event::ReadPending,
            None => Event::Filled { before, after: before },
        }
    }

    fn poll_reconnect(&mut self) -> Event {
        match self.responses.pop_front() {
            Some(ReconnectResponse::Success(chunks)) => {
                self.inner = VecDeque::from(chunks);
                Event::Reconnected
            }
            Some(ReconnectResponse::Failure(kind)) => {
                Event::ReconnectFailed(IoError::observe(&io::Error::new(
                    kind,
                    "mock reconnect failure",
                )))
            }
            Some(ReconnectResponse::Pending) => Event::ReconnectPending,
            None => Event::ReconnectFailed(IoError::observe(&io::Error::other(
                "no more mock responses queued",
            ))),
        }
    }

    fn poll(&mut self, out: &mut Vec<u8>, room: usize) -> Polled {
        let before = out.len();
        let mut event = Event::Polled;
        loop {
            event = match self.reader.poll_read(event) {
                Action::PollInner => self.poll_inner(out, room),
                Action::PollReconnect => self.poll_reconnect(),
                Action::StartReconnect { delay_ms, range_start } => {
                    self.delays.push(delay_ms);
                    self.calls.push(range_start);
                    self.poll_reconnect()
                }
                Action::Ready(Ok(())) => return Polled::Read(out.len() - before),
                Action::Ready(Err(e)) => return Polled::Failed(e),
                Action::Pending => return Polled::Pending,
            };
        }
    }

    /// Polls until the stream ends or fails.
    fn read_to_end(&mut self, out: &mut Vec<u8>) -> Result<(), IoError> {
        loop {
            match self.poll(out, 32) {
                Polled::Read(0) => return Ok(()),
                Polled::Read(_) | Polled::Pending => {}
                Polled::Failed(e) => return Err(e),
            }
        }
    }
}

fn cfg(max_retries: u8) -> StreamResumeConfig {
    StreamResumeConfig { max_retries, initial_backoff_ms: 1, max_backoff_ms: 1 }
}

fn data(bytes: &[u8]) -> MockChunk {
    MockChunk::Data(bytes.to_vec())
}

fn hello_then(kind: io::ErrorKind) -> Vec<MockChunk> {
    vec![data(b"hello "), MockChunk::Error(kind)]
}

fn world() -> ReconnectResponse {
    ReconnectResponse::Success(vec![data(b"world")])
}

fn error(kind: io::ErrorKind, message: &str) -> IoError {
    IoError { kind, message: message.to_string() }
}

#[test]
fn happy_path_no_resume() {
    let mut wrapper = driver(vec![], vec![data(b"hello "), data(b"world")], Some(11), cfg(3));
    let mut out = Vec::new();
    wrapper.read_to_end(&mut out).unwrap();
    assert_eq!(out, b"hello world");
    assert!(wrapper.calls.is_empty(), "no reconnects expected");
}

#[test]
fn mid_stream_error_triggers_resume() {
    let inner = hello_then(io::ErrorKind::ConnectionReset);
    let mut wrapper = driver(vec![world()], inner, Some(11), cfg(3));
    let mut out = Vec::new();
    wrapper.read_to_end(&mut out).unwrap();
    assert_eq!(out, b"hello world");
    assert_eq!(wrapper.calls, vec![6], "reconnect should resume from byte 6");
}

#[test]
fn premature_eof_triggers_resume() {
    let mut wrapper = driver(vec![world()], vec![data(b"hello ")], Some(11), cfg(3));
    let mut out = Vec::new();
    wrapper.read_to_end(&mut out).unwrap();
    assert_eq!(out, b"hello world");
    assert_eq!(wrapper.calls, vec![6]);
}

#[test]
fn other_kind_error_is_retried() {
    let inner = hello_then(io::ErrorKind::Other);
    let mut wrapper = driver(vec![world()], inner, Some(11), cfg(3));
    let mut out = Vec::new();
    wrapper.read_to_end(&mut out).unwrap();
    assert_eq!(out, b"hello world");
    assert_eq!(wrapper.calls, vec![6]);
}

#[test]
fn max_retries_zero_disables_resume() {
    let inner = hello_then(io::ErrorKind::ConnectionReset);
    let mut wrapper = driver(vec![], inner, Some(11), cfg(0));
    let mut out = Vec::new();
    let err = wrapper.read_to_end(&mut out).unwrap_err();
    assert_eq!(err.kind, io::ErrorKind::ConnectionReset);
    assert_eq!(out, b"hello ");
    assert!(wrapper.calls.is_empty(), "no reconnects when disabled");
}

#[test]
fn non_retryable_error_propagates() {
    let inner = hello_then(io::ErrorKind::PermissionDenied);
    let mut wrapper = driver(vec![], inner, Some(11), cfg(3));
    let mut out = Vec::new();
    let err = wrapper.read_to_end(&mut out).unwrap_err();
    assert_eq!(err.kind, io::ErrorKind::PermissionDenied);
    assert!(wrapper.calls.is_empty(), "PermissionDenied should not trigger reconnect");
}

#[test]
fn retry_budget_exhausted_propagates_last_error() {
    let reset = || vec![MockChunk::Error(io::ErrorKind::ConnectionReset)];
    let mut wrapper = driver(
        vec![ReconnectResponse::Success(reset()), ReconnectResponse::Success(reset())],
        reset(),
        Some(100),
        cfg(2),
    );
    let mut out = Vec::new();
    match wrapper.poll(&mut out, 16) {
        Polled::Failed(err) => assert_eq!(err.kind, io::ErrorKind::ConnectionReset),
        other => panic!("{other:?}"),
    }
    assert_eq!(wrapper.calls.len(), 2, "should exhaust both retries");
}

#[test]
fn reconnect_failure_then_success() {
    let inner = hello_then(io::ErrorKind::ConnectionReset);
    let responses = vec![ReconnectResponse::Failure(io::ErrorKind::TimedOut), world()];
    let mut wrapper = driver(responses, inner, Some(11), cfg(3));
    let mut out = Vec::new();
    wrapper.read_to_end(&mut out).unwrap();
    assert_eq!(out, b"hello world");
    assert_eq!(wrapper.calls, vec![6, 6]);
}

#[test]
fn reconnect_non_retryable_failure_propagates() {
    let inner = hello_then(io::ErrorKind::ConnectionReset);
    let responses = vec![ReconnectResponse::Failure(io::ErrorKind::InvalidData)];
    let mut wrapper = driver(responses, inner, Some(11), cfg(3));
    let mut out = Vec::new();
    let err = wrapper.read_to_end(&mut out).unwrap_err();
    assert_eq!(err.kind, io::ErrorKind::InvalidData);
    assert_eq!(wrapper.calls.len(), 1, "should not retry past InvalidData");
}

#[test]
fn unknown_total_size_skips_premature_eof_detection() {
    let mut wrapper = driver(vec![], vec![data(b"hello")], None, cfg(3));
    let mut out = Vec::new();
    wrapper.read_to_end(&mut out).unwrap();
    assert_eq!(out, b"hello");
    assert!(wrapper.calls.is_empty());
}

#[test]
fn is_retryable_classification() {
    for k in [
        ErrorKind::ConnectionReset,
        ErrorKind::ConnectionAborted,
        ErrorKind::BrokenPipe,
        ErrorKind::TimedOut,
        ErrorKind::UnexpectedEof,
        ErrorKind::Interrupted,
        ErrorKind::Other,
    ] {
        let e = IoError::observe(&io::Error::new(k, "x"));
        assert!(is_retryable(&e), "{k:?} should retry");
    }
    for k in [
        ErrorKind::NotFound,
        ErrorKind::PermissionDenied,
        ErrorKind::InvalidData,
        ErrorKind::InvalidInput,
    ] {
        let e = IoError::observe(&io::Error::new(k, "x"));
        assert!(!is_retryable(&e), "{k:?} should not retry");
    }
}

#[test]
fn observing_takes_kind_and_text() {
    let e = io::Error::new(io::ErrorKind::BrokenPipe, "gone");
    assert_eq!(IoError::observe(&e), error(io::ErrorKind::BrokenPipe, "gone"));
}

#[test]
fn unknown_total_size_still_resumes_from_errors() {
    let inner = hello_then(io::ErrorKind::BrokenPipe);
    let mut wrapper = driver(vec![world()], inner, None, cfg(1));
    let mut out = Vec::new();
    wrapper.read_to_end(&mut out).unwrap();
    assert_eq!(out, b"hello world");
    assert_eq!(wrapper.calls, vec![6]);
}

#[test]
fn premature_end_without_retries_is_taken_for_the_end() {
    let mut wrapper = driver(vec![], vec![data(b"hello ")], Some(11), cfg(0));
    let mut out = Vec::new();
    wrapper.read_to_end(&mut out).unwrap();
    assert_eq!(out, b"hello ");
    assert!(wrapper.calls.is_empty());
}

#[test]
fn many_interruptions_lose_and_repeat_nothing() {
    let object: Vec<u8> = (0..100u8).collect();
    let cuts = [0usize, 7, 7, 40, 99, 100];
    let stream = |from: usize, to: usize| {
        vec![
            MockChunk::Data(object[from..to].to_vec()),
            MockChunk::Error(io::ErrorKind::Other),
        ]
    };
    // A chunk of no bytes would be an end, so the empty stretch is an error alone.
    let mut responses = VecDeque::new();
    for w in cuts.windows(2).skip(1) {
        responses.push_back(ReconnectResponse::Success(if w[0] == w[1] {
            vec![MockChunk::Error(io::ErrorKind::Other)]
        } else {
            stream(w[0], w[1])
        }));
    }
    responses.push_back(ReconnectResponse::Success(vec![]));
    let mut wrapper = driver(Vec::from(responses), stream(0, 7), Some(100), cfg(5));
    let mut out = Vec::new();
    wrapper.read_to_end(&mut out).unwrap();
    assert_eq!(out, object);
    assert_eq!(wrapper.calls, vec![7, 7, 40, 99, 100]);
    assert_eq!(wrapper.reader.bytes_read(), 100);
}

#[test]
fn dead_reader_repeats_its_error() {
    let inner = hello_then(io::ErrorKind::NotFound);
    let mut wrapper = driver(vec![], inner, Some(11), cfg(3));
    let mut out = Vec::new();
    let expected = error(io::ErrorKind::NotFound, "mock stream error");
    assert_eq!(wrapper.read_to_end(&mut out).unwrap_err(), expected);
    for _ in 0..3 {
        assert_eq!(
            wrapper.poll(&mut out, 16),
            Polled::Failed(error(io::ErrorKind::NotFound, "mock stream error"))
        );
    }
    assert_eq!(out, b"hello ");
}

#[test]
fn pending_is_passed_on_and_changes_nothing() {
    let mut wrapper = driver(
        vec![ReconnectResponse::Pending, ReconnectResponse::Pending, world()],
        vec![
            MockChunk::Pending,
            data(b"hello "),
            MockChunk::Error(io::ErrorKind::Interrupted),
        ],
        Some(11),
        cfg(1),
    );
    let mut out = Vec::new();
    assert_eq!(wrapper.poll(&mut out, 16), Polled::Pending);
    assert_eq!(wrapper.poll(&mut out, 16), Polled::Read(6));
    assert_eq!(wrapper.poll(&mut out, 16), Polled::Pending);
    assert_eq!(wrapper.poll(&mut out, 16), Polled::Pending);
    assert_eq!(wrapper.poll(&mut out, 16), Polled::Read(5));
    assert_eq!(wrapper.poll(&mut out, 16), Polled::Read(0));
    assert_eq!(out, b"hello world");
    assert_eq!(wrapper.calls, vec![6]);
}

/// The delays of as many reconnects as the budget allows, each failing.
fn delays(config: StreamResumeConfig) -> Vec<u64> {
    let responses = (0..config.max_retries)
        .map(|_| ReconnectResponse::Failure(io::ErrorKind::TimedOut))
        .collect();
    let inner = vec![MockChunk::Error(io::ErrorKind::ConnectionReset)];
    let mut wrapper = driver(responses, inner, None, config);
    let mut out = Vec::new();
    match wrapper.poll(&mut out, 16) {
        Polled::Failed(e) => assert_eq!(e.message, "mock reconnect failure"),
        other => panic!("{other:?}"),
    }
    wrapper.delays
}

#[test]
fn backoff_doubles_up_to_the_limit() {
    let config =
        StreamResumeConfig { max_retries: 6, initial_backoff_ms: 100, max_backoff_ms: 1000 };
    assert_eq!(delays(config), vec![100, 200, 400, 800, 1000, 1000]);
}

#[test]
fn first_delay_may_be_over_the_limit() {
    let config =
        StreamResumeConfig { max_retries: 3, initial_backoff_ms: 500, max_backoff_ms: 75 };
    assert_eq!(delays(config), vec![500, 75, 75]);
}

#[test]
fn backoff_does_not_overflow() {
    let config = StreamResumeConfig {
        max_retries: 3,
        initial_backoff_ms: u64::MAX / 2 + 1,
        max_backoff_ms: u64::MAX,
    };
    assert_eq!(delays(config), vec![u64::MAX / 2 + 1, u64::MAX, u64::MAX]);
}

#[test]
fn odd_limit_is_reached_exactly() {
    let config = StreamResumeConfig { max_retries: 4, initial_backoff_ms: 1, max_backoff_ms: 3 };
    assert_eq!(delays(config), vec![1, 2, 3, 3]);
}

#[test]
fn budget_of_the_largest_size_is_spent_in_full() {
    let config = StreamResumeConfig { max_retries: 255, initial_backoff_ms: 0, max_backoff_ms: 9 };
    assert_eq!(delays(config), vec![0; 255]);
}

#[test]
fn reader_answers_one_event_at_a_time() {
    let mut reader = ResumableS3Read::from_parts("nar/x".to_string(), Some(10), cfg(1));
    assert_eq!(reader.key(), "nar/x");
    assert_eq!(reader.total_size(), Some(10));
    assert_eq!(reader.poll_read(Event::Polled), Action::PollInner);
    assert_eq!(reader.poll_read(Event::Filled { before: 3, after: 7 }), Action::Ready(Ok(())));
    assert_eq!(reader.bytes_read(), 4);
    assert_eq!(
        reader.poll_read(Event::Filled { before: 0, after: 0 }),
        Action::StartReconnect { delay_ms: 1, range_start: 4 }
    );
    assert_eq!(reader.poll_read(Event::Polled), Action::PollReconnect);
    assert_eq!(reader.poll_read(Event::ReconnectPending), Action::Pending);
    assert_eq!(reader.poll_read(Event::Reconnected), Action::PollInner);
    assert_eq!(
        reader.poll_read(Event::ReadFailed(error(io::ErrorKind::TimedOut, "late"))),
        Action::Ready(Err(error(io::ErrorKind::TimedOut, "late")))
    );
    assert_eq!(
        reader.poll_read(Event::Polled),
        Action::Ready(Err(error(io::ErrorKind::TimedOut, "late")))
    );
}

#[test]
fn delays_never_shrink_below_the_limit() {
    for (initial_backoff_ms, max_backoff_ms) in [(0, 0), (1, 1), (3, 50), (7, 7), (1, u64::MAX)] {
        let config = StreamResumeConfig { max_retries: 80, initial_backoff_ms, max_backoff_ms };
        let delays = delays(config);
        assert_eq!(delays.len(), 80);
        assert!(delays.windows(2).all(|w| w[0] <= w[1]));
        assert!(delays.iter().all(|d| *d <= max_backoff_ms));
    }
}

#[test]
fn reconnects_past_the_budget_neither_overflow_nor_underflow() {
    let config = StreamResumeConfig {
        max_retries: 1,
        initial_backoff_ms: u64::MAX,
        max_backoff_ms: u64::MAX,
    };
    let mut reader = ResumableS3Read::from_parts("k".to_string(), None, config);
    for _ in 0..300 {
        assert_eq!(
            reader.start_reconnect(),
            Action::StartReconnect { delay_ms: u64::MAX, range_start: 0 }
        );
    }
    // The budget has stayed at 0: the next failure is final.
    assert_eq!(
        reader.poll_read(Event::ReconnectFailed(error(ErrorKind::TimedOut, "late"))),
        Action::Ready(Err(error(ErrorKind::TimedOut, "late")))
    );
}

#[test]
fn key_is_a_label_only() {
    let config = StreamResumeConfig { max_retries: 1, initial_backoff_ms: 2, max_backoff_ms: 9 };
    let mut a = ResumableS3Read::from_parts("a".to_string(), Some(8), config);
    let mut b = ResumableS3Read::from_parts("other/b".to_string(), Some(8), config);
    let script = || {
        vec![
            Event::Polled,
            Event::Filled { before: 0, after: 5 },
            Event::ReadFailed(error(ErrorKind::Other, "cut")),
            Event::ReconnectPending,
            Event::Reconnected,
            Event::ReadFailed(error(ErrorKind::Other, "cut again")),
            Event::Polled,
        ]
    };
    for (x, y) in script().into_iter().zip(script()) {
        assert_eq!(a.poll_read(x), b.poll_read(y));
        assert_eq!(a.bytes_read(), b.bytes_read());
    }
    assert_eq!(a.key(), "a");
    assert_eq!(b.key(), "other/b");
}
