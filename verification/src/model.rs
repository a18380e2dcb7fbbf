//! The reader as a transition system: its state, what can happen to it, and what it answers.

use crate::error::{retryable, IoErrorView};
use vstd::prelude::*;

verus! {

/// Where the reader stands between two events.
pub enum Phase {
    /// The body stream is open and can be read.
    Reading,
    /// A new body stream has been asked for.
    Reconnecting,
    /// The download has failed for good, with this error.
    Dead(IoErrorView),
}

/// The state of a reader.
pub struct ReaderView {
    pub key: Seq<char>,
    pub total_size: Option<u64>,
    pub bytes_read: nat,
    pub retries_remaining: nat,
    pub next_backoff_ms: nat,
    pub max_backoff_ms: nat,
    pub phase: Phase,
}

/// What happens to a reader.
pub enum EventView {
    /// The consumer asks for bytes.
    Polled,
    /// The reconnect brought a new body stream.
    Reconnected,
    /// The reconnect failed.
    ReconnectFailed(IoErrorView),
    /// The reconnect is still under way.
    ReconnectPending,
    /// The body stream put this many bytes into the buffer of the consumer.
    Filled(nat),
    /// The body stream failed.
    ReadFailed(IoErrorView),
    /// The body stream has nothing to give yet.
    ReadPending,
}

/// What a reader wants done next.
pub enum ActionView {
    /// Poll the reconnect that is under way.
    PollReconnect,
    /// Poll the body stream.
    PollInner,
    /// Wait for `delay_ms`, ask for the object from byte `range_start` on, and poll that.
    StartReconnect { delay_ms: nat, range_start: nat },
    /// Answer the consumer.
    Ready(Result<(), IoErrorView>),
    /// Tell the consumer to wait.
    Pending,
}

/// The smaller of two numbers.
pub open spec fn least(a: nat, b: nat) -> nat {
    if a <= b {
        a
    } else {
        b
    }
}

impl ReaderView {
    /// A reader at the start of a download.
    pub open spec fn fresh(
        key: Seq<char>,
        total_size: Option<u64>,
        max_retries: nat,
        initial_backoff_ms: nat,
        max_backoff_ms: nat,
    ) -> ReaderView {
        ReaderView {
            key,
            total_size,
            bytes_read: 0,
            retries_remaining: max_retries,
            next_backoff_ms: initial_backoff_ms,
            max_backoff_ms,
            phase: Phase::Reading,
        }
    }

    /// The reader is at the start of a download.
    pub open spec fn is_fresh(self) -> bool {
        self.bytes_read == 0 && self.phase is Reading
    }

    /// `event` can happen in this state: only a stream that is open can be read, and only a
    /// reconnect that is under way can end.
    pub open spec fn accepts(self, event: EventView) -> bool {
        match event {
            EventView::Polled => true,
            EventView::Reconnected => self.phase is Reconnecting,
            EventView::ReconnectFailed(_) => self.phase is Reconnecting,
            EventView::ReconnectPending => self.phase is Reconnecting,
            EventView::Filled(_) => self.phase is Reading,
            EventView::ReadFailed(_) => self.phase is Reading,
            EventView::ReadPending => self.phase is Reading,
        }
    }

    /// Fewer bytes have come than the object has.
    pub open spec fn is_short(self) -> bool {
        self.total_size matches Some(total) && self.bytes_read < total
    }

    /// The state once a reconnect has been asked for: one retry is spent, and the next delay is
    /// twice the last one, up to the limit.
    pub open spec fn reconnecting(self) -> ReaderView {
        ReaderView {
            retries_remaining: if self.retries_remaining > 0 {
                (self.retries_remaining - 1) as nat
            } else {
                0
            },
            next_backoff_ms: least(2 * self.next_backoff_ms, self.max_backoff_ms),
            phase: Phase::Reconnecting,
            ..self
        }
    }

    /// The state and the answer where the download is resumed at the first missing byte.
    pub open spec fn resume(self) -> (ReaderView, ActionView) {
        (
            self.reconnecting(),
            ActionView::StartReconnect {
                delay_ms: self.next_backoff_ms,
                range_start: self.bytes_read,
            },
        )
    }

    /// The state once the download has failed for good with `e`.
    pub open spec fn dead(self, e: IoErrorView) -> ReaderView {
        ReaderView { phase: Phase::Dead(e), ..self }
    }

    /// The state once `n` more bytes have come.
    pub open spec fn advanced(self, n: nat) -> ReaderView {
        ReaderView { bytes_read: self.bytes_read + n, ..self }
    }

    /// A failure is resumed from while the budget lasts and its kind allows; any other is final
    /// and goes to the consumer.
    pub open spec fn after_failure(self, e: IoErrorView) -> (ReaderView, ActionView) {
        if self.retries_remaining > 0 && retryable(e.kind) {
            self.resume()
        } else {
            (self.dead(e), ActionView::Ready(Err(e)))
        }
    }

    /// Bytes go to the consumer. No bytes at all are the end of the stream, and an end that
    /// comes too early is resumed from while the budget lasts.
    pub open spec fn after_filled(self, n: nat) -> (ReaderView, ActionView) {
        if n == 0 && self.is_short() && self.retries_remaining > 0 {
            self.resume()
        } else {
            (self.advanced(n), ActionView::Ready(Ok(())))
        }
    }

    /// What the reader wants done when the consumer asks for bytes.
    pub open spec fn demand(self) -> ActionView {
        match self.phase {
            Phase::Reading => ActionView::PollInner,
            Phase::Reconnecting => ActionView::PollReconnect,
            Phase::Dead(e) => ActionView::Ready(Err(e)),
        }
    }

    /// The state and the answer after `event`.
    pub open spec fn step(self, event: EventView) -> (ReaderView, ActionView) {
        match event {
            EventView::Polled => (self, self.demand()),
            EventView::Reconnected => (
                ReaderView { phase: Phase::Reading, ..self },
                ActionView::PollInner,
            ),
            EventView::ReconnectFailed(e) => self.after_failure(e),
            EventView::ReconnectPending => (self, ActionView::Pending),
            EventView::Filled(n) => self.after_filled(n),
            EventView::ReadFailed(e) => self.after_failure(e),
            EventView::ReadPending => (self, ActionView::Pending),
        }
    }
}

} // verus!
