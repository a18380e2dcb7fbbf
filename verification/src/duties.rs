//! What the library owes its callers, in plain terms: numbers, kinds of error, and the fields of
//! a state before and after an event.
//!
//! The statements here lean on none of the definitions that the model is built from.

use crate::error::{retryable, IoError, IoErrorView};
use crate::laws::{answers, law_progress, lemma_answer_at, run, total_brought};
use crate::model::{ActionView, EventView, Phase, ReaderView};
use crate::reader::{Action, Event};
use crate::sdk::{
    reconnect_error, response_status, sdk_error_text, service_status, size_of_object,
};
use aws_sdk_s3::error::SdkError;
use aws_sdk_s3::operation::get_object::GetObjectError;
use std::io;
use vstd::prelude::*;

verus! {

// ---- One event ----

/// A download starts at byte 0 with its stream open, and with the budget and the delays that it
/// was given.
pub proof fn law_start(
    key: Seq<char>,
    total_size: Option<u64>,
    max_retries: nat,
    initial_backoff_ms: nat,
    max_backoff_ms: nat,
)
    ensures
        ({
            let s = ReaderView::fresh(
                key,
                total_size,
                max_retries,
                initial_backoff_ms,
                max_backoff_ms,
            );
            &&& s.key == key
            &&& s.total_size == total_size
            &&& s.bytes_read == 0
            &&& s.retries_remaining == max_retries
            &&& s.next_backoff_ms == initial_backoff_ms
            &&& s.max_backoff_ms == max_backoff_ms
            &&& s.phase is Reading
        }),
{
}

/// Only an open stream can be read, and only a reconnect under way can end; the consumer may ask
/// at any time.
pub proof fn law_events_fit_the_phase(s: ReaderView, event: EventView)
    ensures
        event is Polled ==> s.accepts(event),
        event is Reconnected || event is ReconnectFailed || event is ReconnectPending ==> (
        s.accepts(event) <==> s.phase is Reconnecting),
        event is Filled || event is ReadFailed || event is ReadPending ==> (s.accepts(event)
            <==> s.phase is Reading),
{
}

/// When the consumer asks for bytes, an open stream is read, a reconnect under way is waited
/// for, and a dead reader repeats its error. The asking changes nothing.
pub proof fn law_demand_goes_to_the_source(s: ReaderView, e: IoErrorView)
    ensures
        s.step(EventView::Polled).0 == s,
        s.step(EventView::Polled).1 is PollInner <==> s.phase is Reading,
        s.step(EventView::Polled).1 is PollReconnect <==> s.phase is Reconnecting,
        s.step(EventView::Polled).1 == ActionView::Ready(Err(e)) <==> s.phase == Phase::Dead(e),
{
}

/// A new stream is read at once, and the reader is otherwise as it was.
pub proof fn law_new_stream_is_read(s: ReaderView)
    ensures
        s.step(EventView::Reconnected).1 is PollInner,
        s.step(EventView::Reconnected).0 == (ReaderView { phase: Phase::Reading, ..s }),
{
}

/// A source that has nothing yet makes the consumer wait. Nothing else does.
pub proof fn law_consumer_waits_for_its_source_only(s: ReaderView, event: EventView)
    ensures
        s.step(event).1 is Pending <==> event is ReconnectPending || event is ReadPending,
        s.step(event).1 is Pending ==> s.step(event).0 == s,
{
}

/// Every chunk of at least one byte goes to the consumer and is counted in full. Nothing else
/// changes.
pub proof fn law_bytes_go_to_the_consumer(s: ReaderView, n: nat)
    requires
        n > 0,
    ensures
        s.step(EventView::Filled(n)).1 == ActionView::Ready(Ok(())),
        s.step(EventView::Filled(n)).0 == (ReaderView { bytes_read: s.bytes_read + n, ..s }),
{
}

/// The consumer is told that a read went well only where the stream was read, and that the body
/// has ended only where no more of it can be had: all its bytes have come, its size is unknown,
/// or no retry is left.
pub proof fn law_success_means_a_read(s: ReaderView, event: EventView)
    requires
        s.step(event).1 == ActionView::Ready(Ok(())),
    ensures
        event is Filled,
        event->Filled_0 == 0 ==> s.retries_remaining == 0 || (s.total_size matches Some(total)
            ==> s.bytes_read >= total),
{
}

/// An end of the stream is resumed from exactly if bytes are known to be missing and a retry is
/// left. Any other end goes to the consumer and changes nothing.
pub proof fn law_end_is_resumed_iff_bytes_are_missing(s: ReaderView)
    ensures
        s.step(EventView::Filled(0)).1 is StartReconnect <==> s.retries_remaining > 0 && (
        s.total_size matches Some(total) && s.bytes_read < total),
        !(s.step(EventView::Filled(0)).1 is StartReconnect) ==> s.step(EventView::Filled(0)) == (
            s,
            ActionView::Ready(Ok(())),
        ),
{
}

/// Once the whole object has come, the end of the stream is the end of the download.
pub proof fn law_complete_download_ends(s: ReaderView, total: u64)
    requires
        s.total_size == Some(total),
        s.bytes_read >= total,
    ensures
        s.step(EventView::Filled(0)) == (s, ActionView::Ready(Ok(()))),
{
}

/// The kinds of error that a retry can mend are those of a connection that was cut, timed out or
/// was interrupted, and the unclassified one.
pub proof fn law_kinds_worth_a_retry(kind: io::ErrorKind)
    ensures
        retryable(kind) <==> kind is ConnectionReset || kind is ConnectionAborted
            || kind is BrokenPipe || kind is TimedOut || kind is UnexpectedEof
            || kind is Interrupted || kind is Other,
{
}

/// A failure, of the stream or of a reconnect, is resumed from exactly if a retry is left and
/// its kind is one that a retry can mend. Any other failure goes to the consumer as it is, and
/// the reader is dead of it and otherwise as it was.
pub proof fn law_failure_is_resumed_or_reported(s: ReaderView, e: IoErrorView, event: EventView)
    requires
        event == EventView::ReadFailed(e) || event == EventView::ReconnectFailed(e),
    ensures
        s.step(event).1 is StartReconnect <==> s.retries_remaining > 0 && (
        e.kind is ConnectionReset || e.kind is ConnectionAborted || e.kind is BrokenPipe
            || e.kind is TimedOut || e.kind is UnexpectedEof || e.kind is Interrupted
            || e.kind is Other),
        !(s.step(event).1 is StartReconnect) ==> s.step(event) == (
            ReaderView { phase: Phase::Dead(e), ..s },
            ActionView::Ready(Err(e)),
        ),
{
}

/// The consumer sees no error but one that the stream or a reconnect reported, or the one that
/// the reader died of before.
pub proof fn law_no_error_is_made_up(s: ReaderView, event: EventView, e: IoErrorView)
    requires
        s.step(event).1 == ActionView::Ready(Err(e)),
    ensures
        event == EventView::ReadFailed(e) || event == EventView::ReconnectFailed(e) || (
        event is Polled && s.phase == Phase::Dead(e)),
        s.step(event).0 == (ReaderView { phase: Phase::Dead(e), ..s }),
{
}

/// A reconnect asks for the object from the byte after the last one that came, after the delay
/// that is due. It takes one retry, and it doubles the delay of the next, up to the limit. It
/// happens after a failure or an end of the stream only.
pub proof fn law_reconnect(s: ReaderView, event: EventView)
    requires
        s.step(event).1 is StartReconnect,
    ensures
        event == EventView::Filled(0) || event is ReadFailed || event is ReconnectFailed,
        s.step(event).1->range_start == s.bytes_read,
        s.step(event).1->delay_ms == s.next_backoff_ms,
        s.step(event).0.retries_remaining == s.retries_remaining - 1,
        2 * s.next_backoff_ms <= s.max_backoff_ms ==> s.step(event).0.next_backoff_ms == 2
            * s.next_backoff_ms,
        2 * s.next_backoff_ms > s.max_backoff_ms ==> s.step(event).0.next_backoff_ms
            == s.max_backoff_ms,
        s.step(event).0.phase is Reconnecting,
        s.step(event).0.bytes_read == s.bytes_read,
        s.step(event).0.total_size == s.total_size,
        s.step(event).0.max_backoff_ms == s.max_backoff_ms,
        s.step(event).0.key == s.key,
{
}

/// The same of a reconnect that is asked for outright. Without a retry left none is taken.
pub proof fn law_outright_reconnect(s: ReaderView)
    ensures
        s.resume().1 == (ActionView::StartReconnect {
            delay_ms: s.next_backoff_ms,
            range_start: s.bytes_read,
        }),
        s.retries_remaining > 0 ==> s.resume().0.retries_remaining == s.retries_remaining - 1,
        s.retries_remaining == 0 ==> s.resume().0.retries_remaining == 0,
        2 * s.next_backoff_ms <= s.max_backoff_ms ==> s.resume().0.next_backoff_ms == 2
            * s.next_backoff_ms,
        2 * s.next_backoff_ms > s.max_backoff_ms ==> s.resume().0.next_backoff_ms
            == s.max_backoff_ms,
        s.resume().0.phase is Reconnecting,
        s.resume().0.bytes_read == s.bytes_read,
        s.resume().0.total_size == s.total_size,
        s.resume().0.max_backoff_ms == s.max_backoff_ms,
        s.resume().0.key == s.key,
{
}

// ---- A whole download ----

/// Over a download, the consumer is told that a read went well only where the stream was read,
/// and, with the size known and a retry left, that the body has ended only once all its bytes
/// have come.
pub proof fn law_download_ends_with_its_last_byte(s: ReaderView, events: Seq<EventView>, i: int)
    requires
        0 <= i < events.len(),
        answers(s, events)[i] == ActionView::Ready(Ok(())),
    ensures
        events[i] is Filled,
        run(s, events.take(i)).retries_remaining > 0 ==> (s.total_size matches Some(total)
            ==> events[i]->Filled_0 > 0 || s.bytes_read + total_brought(events.take(i)) >= total),
{
    lemma_answer_at(s, events, i);
    law_progress(s, events.take(i));
    law_success_means_a_read(run(s, events.take(i)), events[i]);
}

/// Over a download, an end of the stream is resumed from only while bytes are missing.
pub proof fn law_complete_download_is_not_reopened(s: ReaderView, events: Seq<EventView>, i: int)
    requires
        0 <= i < events.len(),
        events[i] == EventView::Filled(0),
        answers(s, events)[i] is StartReconnect,
    ensures
        s.total_size matches Some(total) && s.bytes_read + total_brought(events.take(i)) < total,
{
    lemma_answer_at(s, events, i);
    law_progress(s, events.take(i));
    law_end_is_resumed_iff_bytes_are_missing(run(s, events.take(i)));
}

proof fn lemma_delay_stands(s: ReaderView, events: Seq<EventView>, i: int, j: int)
    requires
        0 <= i <= j <= events.len(),
        forall|m: int| i <= m < j ==> !(#[trigger] answers(s, events)[m] is StartReconnect),
    ensures
        run(s, events.take(j)).next_backoff_ms == run(s, events.take(i)).next_backoff_ms,
    decreases j,
{
    if i < j {
        lemma_delay_stands(s, events, i, j - 1);
        lemma_answer_at(s, events, j - 1);
        assert(events.take(j).drop_last() =~= events.take(j - 1));
        assert(!(answers(s, events)[j - 1] is StartReconnect));
    }
}

/// Of two reconnects with none between them, the second waits twice as long as the first, or as
/// long as the limit allows.
pub proof fn law_next_delay_is_doubled(s: ReaderView, events: Seq<EventView>, i: int, j: int)
    requires
        0 <= i < j < events.len(),
        answers(s, events)[i] is StartReconnect,
        answers(s, events)[j] is StartReconnect,
        forall|m: int| i < m < j ==> !(#[trigger] answers(s, events)[m] is StartReconnect),
    ensures
        2 * answers(s, events)[i]->delay_ms <= s.max_backoff_ms ==> answers(s, events)[j]->delay_ms
            == 2 * answers(s, events)[i]->delay_ms,
        2 * answers(s, events)[i]->delay_ms > s.max_backoff_ms ==> answers(s, events)[j]->delay_ms
            == s.max_backoff_ms,
{
    lemma_answer_at(s, events, i);
    lemma_answer_at(s, events, j);
    law_progress(s, events.take(i));
    assert(events.take(i + 1).drop_last() =~= events.take(i));
    lemma_delay_stands(s, events, i + 1, j);
}

/// The first reconnect of a download waits for the initial delay.
pub proof fn law_first_delay_is_the_initial_one(s: ReaderView, events: Seq<EventView>, i: int)
    requires
        0 <= i < events.len(),
        answers(s, events)[i] is StartReconnect,
        forall|m: int| 0 <= m < i ==> !(#[trigger] answers(s, events)[m] is StartReconnect),
    ensures
        answers(s, events)[i]->delay_ms == s.next_backoff_ms,
{
    lemma_answer_at(s, events, i);
    lemma_delay_stands(s, events, 0, i);
    assert(events.take(0) =~= Seq::<EventView>::empty());
}

// ---- The first response ----

/// A content length that is not negative is the size of the object. A negative one, or none,
/// says nothing of it.
pub proof fn law_content_length_is_the_size(content_length: Option<i64>)
    ensures
        content_length matches Some(n) ==> n >= 0 ==> (size_of_object(content_length) matches Some(
            total,
        ) && total == n),
        content_length matches Some(n) ==> n < 0 ==> size_of_object(content_length) is None,
        content_length is None ==> size_of_object(content_length) is None,
{
}

// ---- A failed reconnect ----

/// A failed reconnect whose status is a client error, but for 408 and 429, is not worth a retry.
/// Every other one is, with any other status and with none.
pub proof fn law_status_settles_the_retry(status: Option<u16>, text: Seq<char>)
    ensures
        ({
            let kind = reconnect_error(status, text).kind;
            let retried = kind is ConnectionReset || kind is ConnectionAborted || kind is BrokenPipe
                || kind is TimedOut || kind is UnexpectedEof || kind is Interrupted
                || kind is Other;
            retried <==> (status matches Some(code) ==> code < 400 || code >= 500 || code == 408
                || code == 429)
        }),
{
}

/// Status 412 is reported as bad data, any other client error but 408 and 429 as a denied
/// permission, and everything else as unclassified, each with a text of its own before that of
/// the failure.
pub proof fn law_status_settles_the_error(status: Option<u16>, text: Seq<char>)
    ensures
        reconnect_error(status, text).kind is InvalidData <==> (status matches Some(code) && code
            == 412),
        reconnect_error(status, text).kind is PermissionDenied <==> (status matches Some(code)
            && 400 <= code < 500 && code != 408 && code != 412 && code != 429),
        reconnect_error(status, text).kind is Other <==> (status matches Some(code) ==> code < 400
            || code >= 500 || code == 408 || code == 429),
        reconnect_error(status, text).kind is InvalidData ==> reconnect_error(status, text).message
            == "S3 If-Match precondition failed (object changed): "@ + text,
        reconnect_error(status, text).kind is PermissionDenied ==> reconnect_error(
            status,
            text,
        ).message == "S3 fatal error during resume: "@ + text,
        reconnect_error(status, text).kind is Other ==> reconnect_error(status, text).message
            == "S3 transient error during resume: "@ + text,
{
}

/// The status counts where the service reported the error, and nowhere else.
pub proof fn law_only_the_service_gives_a_status(err: SdkError<GetObjectError>)
    ensures
        err matches SdkError::ServiceError(svc) ==> service_status(err) == Some(
            response_status(svc),
        ),
        !(err is ServiceError) ==> service_status(err) is None,
{
}

/// The text of a failed request says which of the five sorts of failure it was.
pub proof fn law_failure_text_names_the_sort(err: SdkError<GetObjectError>)
    ensures
        err is ConstructionFailure ==> sdk_error_text(err) == "failed to construct request"@,
        err is TimeoutError ==> sdk_error_text(err) == "request has timed out"@,
        err is DispatchFailure ==> sdk_error_text(err) == "dispatch failure"@,
        err is ResponseError ==> sdk_error_text(err) == "response error"@,
        err is ServiceError ==> sdk_error_text(err) == "service error"@,
{
}

// ---- What the views keep ----

/// The view of an error keeps its kind and every character of its text.
pub proof fn law_error_view(e: IoError)
    ensures
        e@.kind == e.kind,
        e@.message == e.message@,
{
}

/// The view of an event keeps what happened: which source it was, the error, and the number of
/// bytes by which the buffer grew.
pub proof fn law_event_view(event: Event)
    ensures
        event is Polled <==> event@ is Polled,
        event is Reconnected <==> event@ is Reconnected,
        event is ReconnectPending <==> event@ is ReconnectPending,
        event is ReadPending <==> event@ is ReadPending,
        event matches Event::ReconnectFailed(e) ==> event@ == EventView::ReconnectFailed(e@),
        event matches Event::ReadFailed(e) ==> event@ == EventView::ReadFailed(e@),
        event matches Event::Filled { before, after } ==> before <= after ==> (
        event@ matches EventView::Filled(n) && before + n == after),
{
}

/// The view of an action keeps what is to be done, with the delay, the byte and the error.
pub proof fn law_action_view(action: Action)
    ensures
        action is PollReconnect <==> action@ is PollReconnect,
        action is PollInner <==> action@ is PollInner,
        action is Pending <==> action@ is Pending,
        action is StartReconnect <==> action@ is StartReconnect,
        action is StartReconnect ==> action@->delay_ms == action->delay_ms
            && action@->range_start == action->range_start,
        action is Ready <==> action@ is Ready,
        action matches Action::Ready(Ok(_)) ==> action@ == ActionView::Ready(Ok(())),
        action matches Action::Ready(Err(e)) ==> action@ == ActionView::Ready(Err(e@)),
{
}

} // verus!
