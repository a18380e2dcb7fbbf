//! The reader of a download that survives interruptions of its body stream.

use crate::error::{is_retryable, IoError, IoErrorView};
use crate::model::{ActionView, EventView, Phase, ReaderView};
use std::io;
use vstd::prelude::*;

verus! {

/// How often, and after what delays, an interrupted download is resumed.
#[derive(Clone, Copy, Debug)]
pub struct StreamResumeConfig {
    /// How many reconnects a download may take; 0 turns resuming off.
    pub max_retries: u8,
    /// The delay before the first reconnect.
    pub initial_backoff_ms: u64,
    /// The longest delay before any later one.
    pub max_backoff_ms: u64,
}

/// What happened to a reader.
#[derive(Debug)]
pub enum Event {
    /// The consumer asks for bytes.
    Polled,
    /// The reconnect brought a new body stream.
    Reconnected,
    /// The reconnect failed.
    ReconnectFailed(IoError),
    /// The reconnect is still under way.
    ReconnectPending,
    /// The body stream was read into a buffer that held `before` bytes and now holds `after`.
    Filled { before: usize, after: usize },
    /// The body stream failed.
    ReadFailed(IoError),
    /// The body stream has nothing to give yet.
    ReadPending,
}

impl View for Event {
    type V = EventView;

    open spec fn view(&self) -> EventView {
        match *self {
            Event::Polled => EventView::Polled,
            Event::Reconnected => EventView::Reconnected,
            Event::ReconnectFailed(e) => EventView::ReconnectFailed(e@),
            Event::ReconnectPending => EventView::ReconnectPending,
            Event::Filled { before, after } => EventView::Filled((after - before) as nat),
            Event::ReadFailed(e) => EventView::ReadFailed(e@),
            Event::ReadPending => EventView::ReadPending,
        }
    }
}

/// What a reader wants done next.
#[derive(Debug, PartialEq, Eq)]
pub enum Action {
    /// Poll the reconnect that is under way.
    PollReconnect,
    /// Poll the body stream.
    PollInner,
    /// Wait for `delay_ms`, ask for the object from byte `range_start` on, and poll that.
    StartReconnect { delay_ms: u64, range_start: u64 },
    /// Answer the consumer.
    Ready(Result<(), IoError>),
    /// Tell the consumer to wait.
    Pending,
}

impl View for Action {
    type V = ActionView;

    open spec fn view(&self) -> ActionView {
        match *self {
            Action::PollReconnect => ActionView::PollReconnect,
            Action::PollInner => ActionView::PollInner,
            Action::StartReconnect { delay_ms, range_start } => ActionView::StartReconnect {
                delay_ms: delay_ms as nat,
                range_start: range_start as nat,
            },
            Action::Ready(Ok(_)) => ActionView::Ready(Ok(())),
            Action::Ready(Err(e)) => ActionView::Ready(Err(e@)),
            Action::Pending => ActionView::Pending,
        }
    }
}

enum State {
    Reading,
    Reconnecting,
    Dead { kind: io::ErrorKind, msg: String },
}

impl State {
    spec fn phase(self) -> Phase {
        match self {
            State::Reading => Phase::Reading,
            State::Reconnecting => Phase::Reconnecting,
            State::Dead { kind, msg } => Phase::Dead(IoErrorView { kind, message: msg@ }),
        }
    }
}

/// The decisions of a download that resumes where it was interrupted.
///
/// A reader does no I/O. Whoever drives it tells it through [`poll_read`] what happened and does
/// what it answers: opens streams, reads them, waits, and replies to the consumer.
///
/// [`poll_read`]: ResumableS3Read::poll_read
pub struct ResumableS3Read {
    /// Kept for the labels of log lines.
    key: String,
    /// The size of the object. Without it an end that comes too early goes unnoticed; errors
    /// are resumed from all the same.
    total_size: Option<u64>,
    bytes_read: u64,
    retries_remaining: u8,
    next_backoff_ms: u64,
    max_backoff_ms: u64,
    state: State,
}

impl View for ResumableS3Read {
    type V = ReaderView;

    closed spec fn view(&self) -> ReaderView {
        ReaderView {
            key: self.key@,
            total_size: self.total_size,
            bytes_read: self.bytes_read as nat,
            retries_remaining: self.retries_remaining as nat,
            next_backoff_ms: self.next_backoff_ms as nat,
            max_backoff_ms: self.max_backoff_ms as nat,
            phase: self.state.phase(),
        }
    }
}

impl ResumableS3Read {
    /// A reader of the object `key`, of the given size if that is known, with nothing read yet.
    pub fn from_parts(key: String, total_size: Option<u64>, config: StreamResumeConfig) -> (reader:
        ResumableS3Read)
        ensures
            reader@ == ReaderView::fresh(
                key@,
                total_size,
                config.max_retries as nat,
                config.initial_backoff_ms as nat,
                config.max_backoff_ms as nat,
            ),
            reader@.key == key@,
            reader@.total_size == total_size,
            reader@.bytes_read == 0,
            reader@.retries_remaining == config.max_retries,
            reader@.next_backoff_ms == config.initial_backoff_ms,
            reader@.max_backoff_ms == config.max_backoff_ms,
            reader@.phase is Reading,
    {
        ResumableS3Read {
            key,
            total_size,
            bytes_read: 0,
            retries_remaining: config.max_retries,
            next_backoff_ms: config.initial_backoff_ms,
            max_backoff_ms: config.max_backoff_ms,
            state: State::Reading,
        }
    }

    /// The key of the object.
    pub fn key(&self) -> (key: &str)
        ensures
            key@ == self@.key,
    {
        self.key.as_str()
    }

    /// The size of the object, if it is known.
    pub fn total_size(&self) -> (total_size: Option<u64>)
        ensures
            total_size == self@.total_size,
    {
        self.total_size
    }

    /// How many bytes have come so far.
    pub fn bytes_read(&self) -> (bytes_read: u64)
        ensures
            bytes_read == self@.bytes_read,
    {
        self.bytes_read
    }

    /// Spends a retry, if one is left, on a reconnect at the first missing byte.
    ///
    /// This can be called in every state: the delay stops at its limit instead of overflowing,
    /// and a budget of 0 stays 0.
    pub fn start_reconnect(&mut self) -> (action: Action)
        ensures
            (final(self)@, action@) == old(self)@.resume(),
            action is StartReconnect,
            action->delay_ms == old(self)@.next_backoff_ms,
            action->range_start == old(self)@.bytes_read,
    {
        self.retries_remaining = self.retries_remaining.saturating_sub(1);

        let delay_ms: u64 = self.next_backoff_ms;
        self.next_backoff_ms = if delay_ms <= self.max_backoff_ms / 2 {
            2 * delay_ms
        } else {
            self.max_backoff_ms
        };

        self.state = State::Reconnecting;
        Action::StartReconnect { delay_ms, range_start: self.bytes_read }
    }

    /// Gives the download up with `e`, which every later poll reports again.
    fn enter_dead(&mut self, e: &IoError)
        ensures
            final(self)@ == old(self)@.dead(e@),
    {
        self.state = State::Dead { kind: e.kind, msg: e.message.clone() };
    }

    /// Resumes after `e`, or gives the download up and reports it.
    fn fail(&mut self, e: IoError) -> (action: Action)
        ensures
            (final(self)@, action@) == old(self)@.after_failure(e@),
    {
        if self.retries_remaining > 0 && is_retryable(&e) {
            return self.start_reconnect();
        }
        self.enter_dead(&e);
        Action::Ready(Err(e))
    }

    /// Takes note of `event` and says what is to be done next.
    ///
    /// The event has to fit the phase that the reader is in, as it does if the driver does what
    /// the last answer said, and the number of bytes read has to fit in 64 bits.
    pub fn poll_read(&mut self, event: Event) -> (action: Action)
        requires
            old(self)@.accepts(event@),
            event matches Event::Filled { before, after } ==> before <= after && old(
                self,
            )@.bytes_read + (after - before) <= u64::MAX,
        ensures
            (final(self)@, action@) == old(self)@.step(event@),
            event is Polled ==> {
                &&& final(self)@ == old(self)@
                &&& action is PollInner <==> old(self)@.phase is Reading
                &&& action is PollReconnect <==> old(self)@.phase is Reconnecting
                &&& action is Ready <==> old(self)@.phase is Dead
                &&& action matches Action::Ready(r) ==> (r matches Err(e) && old(self)@.phase
                    == Phase::Dead(e@))
            },
            event is Reconnected ==> action is PollInner && final(self)@.phase is Reading,
            event is ReconnectPending || event is ReadPending ==> action is Pending,
            event matches Event::Filled { before, after } ==> {
                &&& before + final(self)@.bytes_read == old(self)@.bytes_read + after
                &&& before < after ==> action == Action::Ready(Ok(()))
                &&& before == after ==> {
                    &&& action is StartReconnect <==> old(self)@.retries_remaining > 0 && (old(
                        self,
                    )@.total_size matches Some(total) && old(self)@.bytes_read < total)
                    &&& !(action is StartReconnect) ==> action == Action::Ready(Ok(()))
                }
            },
            event matches Event::ReadFailed(e) ==> {
                &&& action is StartReconnect <==> old(self)@.retries_remaining > 0 && (
                e.kind is ConnectionReset || e.kind is ConnectionAborted || e.kind is BrokenPipe
                    || e.kind is TimedOut || e.kind is UnexpectedEof || e.kind is Interrupted
                    || e.kind is Other)
                &&& !(action is StartReconnect) ==> (action matches Action::Ready(Err(seen))
                    && seen@ == e@ && final(self)@.phase == Phase::Dead(e@))
            },
            event matches Event::ReconnectFailed(e) ==> {
                &&& action is StartReconnect <==> old(self)@.retries_remaining > 0 && (
                e.kind is ConnectionReset || e.kind is ConnectionAborted || e.kind is BrokenPipe
                    || e.kind is TimedOut || e.kind is UnexpectedEof || e.kind is Interrupted
                    || e.kind is Other)
                &&& !(action is StartReconnect) ==> (action matches Action::Ready(Err(seen))
                    && seen@ == e@ && final(self)@.phase == Phase::Dead(e@))
            },
            action matches Action::StartReconnect { delay_ms, range_start } ==> {
                &&& delay_ms == old(self)@.next_backoff_ms
                &&& range_start == old(self)@.bytes_read
                &&& final(self)@.retries_remaining == old(self)@.retries_remaining - 1
            },
    {
        match event {
            Event::Polled => match &self.state {
                State::Dead { kind, msg } => Action::Ready(
                    Err(IoError { kind: *kind, message: msg.clone() }),
                ),
                State::Reading => Action::PollInner,
                State::Reconnecting => Action::PollReconnect,
            },
            Event::Reconnected => {
                self.state = State::Reading;
                Action::PollInner
            },
            Event::ReconnectFailed(e) => self.fail(e),
            Event::ReconnectPending => Action::Pending,
            Event::Filled { before, after } => {
                let read: usize = after - before;
                self.bytes_read = self.bytes_read + read as u64;

                let premature_eof = read == 0 && match self.total_size {
                    Some(total) => self.bytes_read < total,
                    None => false,
                };
                if premature_eof && self.retries_remaining > 0 {
                    return self.start_reconnect();
                }
                Action::Ready(Ok(()))
            },
            Event::ReadFailed(e) => self.fail(e),
            Event::ReadPending => Action::Pending,
        }
    }
}

} // verus!
