//! What holds of a reader over a whole download, whatever happens to it.

use crate::error::{retryable, IoErrorView};
use crate::model::{least, ActionView, EventView, Phase, ReaderView};
use crate::sdk::{object_replaced, reconnect_error, request_refused};
use vstd::arithmetic::power2::{lemma2_to64, lemma_pow2_pos, lemma_pow2_unfold, pow2};
use vstd::prelude::*;

verus! {

/// The state after `events`, from the state `s`.
pub open spec fn run(s: ReaderView, events: Seq<EventView>) -> ReaderView
    decreases events.len(),
{
    if events.len() == 0 {
        s
    } else {
        run(s, events.drop_last()).step(events.last()).0
    }
}

/// The answers to `events`, one each, from the state `s`.
pub open spec fn answers(s: ReaderView, events: Seq<EventView>) -> Seq<ActionView>
    decreases events.len(),
{
    if events.len() == 0 {
        seq![]
    } else {
        answers(s, events.drop_last()).push(run(s, events.drop_last()).step(events.last()).1)
    }
}

/// Each of `events` can happen in the state that those before it lead to.
pub open spec fn possible(s: ReaderView, events: Seq<EventView>) -> bool
    decreases events.len(),
{
    events.len() > 0 ==> {
        &&& possible(s, events.drop_last())
        &&& run(s, events.drop_last()).accepts(events.last())
    }
}

/// How many of `actions` are reconnects.
pub open spec fn reconnects(actions: Seq<ActionView>) -> nat
    decreases actions.len(),
{
    if actions.len() == 0 {
        0
    } else {
        reconnects(actions.drop_last()) + (if actions.last() is StartReconnect {
            1nat
        } else {
            0nat
        })
    }
}

/// The number of bytes that `event` brought.
pub open spec fn brought(event: EventView) -> nat {
    match event {
        EventView::Filled(n) => n,
        _ => 0,
    }
}

/// The number of bytes that `events` brought.
pub open spec fn total_brought(events: Seq<EventView>) -> nat
    decreases events.len(),
{
    if events.len() == 0 {
        0
    } else {
        total_brought(events.drop_last()) + brought(events.last())
    }
}

/// The delay before reconnect number `k`, counted from 0: the first is the initial delay, and
/// each later one is twice the one before, up to the limit.
pub open spec fn backoff(initial_ms: nat, max_ms: nat, k: nat) -> nat {
    if k == 0 {
        initial_ms
    } else {
        least(initial_ms * pow2(k), max_ms)
    }
}

/// The byte of the object that the open stream gives next. The first stream starts at byte 0,
/// and a new one where the last reconnect asked for.
pub open spec fn stream_position(s: ReaderView, events: Seq<EventView>) -> nat
    decreases events.len(),
{
    if events.len() == 0 {
        0
    } else {
        let before = events.drop_last();
        match events.last() {
            EventView::Reconnected => last_range_start(answers(s, before)),
            EventView::Filled(n) => stream_position(s, before) + n,
            _ => stream_position(s, before),
        }
    }
}

/// The byte that the last reconnect among `actions` asked for.
pub open spec fn last_range_start(actions: Seq<ActionView>) -> nat
    decreases actions.len(),
{
    if actions.len() == 0 {
        0
    } else {
        match actions.last() {
            ActionView::StartReconnect { delay_ms: _, range_start } => range_start,
            _ => last_range_start(actions.drop_last()),
        }
    }
}

/// `chunk` is what `events[i]` brought, and the open stream gave it in its place in `object`.
pub open spec fn served(
    object: Seq<u8>,
    s: ReaderView,
    events: Seq<EventView>,
    i: int,
    chunk: Seq<u8>,
) -> bool {
    let start = stream_position(s, events.take(i));
    let end = start + brought(events[i]);
    end <= object.len() && chunk == object.subrange(start as int, end as int)
}

/// The service keeps its word: `chunks[i]` is what `events[i]` brought, and every stream gives
/// the bytes of `object` in order from the byte that was asked for.
pub open spec fn served_from(
    object: Seq<u8>,
    s: ReaderView,
    events: Seq<EventView>,
    chunks: Seq<Seq<u8>>,
) -> bool {
    &&& chunks.len() == events.len()
    &&& forall|i: int|
        0 <= i < events.len() ==> served(object, s, events, i, #[trigger] chunks[i])
}

/// The chunks one after the other.
pub open spec fn joined(chunks: Seq<Seq<u8>>) -> Seq<u8>
    decreases chunks.len(),
{
    if chunks.len() == 0 {
        seq![]
    } else {
        joined(chunks.drop_last()) + chunks.last()
    }
}

/// Answers come one per event, and the answer to an event depends on the events up to it alone.
pub(crate) proof fn lemma_answer_at(s: ReaderView, events: Seq<EventView>, i: int)
    requires
        0 <= i < events.len(),
    ensures
        answers(s, events).len() == events.len(),
        answers(s, events)[i] == run(s, events.take(i)).step(events[i]).1,
        answers(s, events).take(i) == answers(s, events.take(i)),
    decreases events.len(),
{
    lemma_answers_len(s, events);
    lemma_answers_len(s, events.drop_last());
    if i == events.len() - 1 {
        assert(events.take(i) =~= events.drop_last());
        assert(answers(s, events).take(i) =~= answers(s, events.drop_last()));
    } else {
        lemma_answer_at(s, events.drop_last(), i);
        assert(events.drop_last().take(i) =~= events.take(i));
        assert(answers(s, events).take(i) =~= answers(s, events.drop_last()).take(i));
    }
}

proof fn lemma_answers_len(s: ReaderView, events: Seq<EventView>)
    ensures
        answers(s, events).len() == events.len(),
    decreases events.len(),
{
    if events.len() > 0 {
        lemma_answers_len(s, events.drop_last());
    }
}

/// The retries left and the reconnects made add up to the retries there were: a download never
/// reconnects more often than it is allowed to, and no retry is lost.
pub proof fn law_retry_budget(s: ReaderView, events: Seq<EventView>)
    ensures
        reconnects(answers(s, events)) + run(s, events).retries_remaining == s.retries_remaining,
    decreases events.len(),
{
    if events.len() > 0 {
        law_retry_budget(s, events.drop_last());
        assert(answers(s, events).drop_last() =~= answers(s, events.drop_last()));
    }
}

/// Without retries nothing is resumed.
pub proof fn law_no_retries_no_reconnects(s: ReaderView, events: Seq<EventView>, i: int)
    requires
        s.retries_remaining == 0,
        0 <= i < events.len(),
    ensures
        !(answers(s, events)[i] is StartReconnect),
{
    lemma_answer_at(s, events, i);
    law_retry_budget(s, events.take(i));
}

/// The key, the size and the longest delay stay what they were, and the number of bytes read is
/// the number of bytes that came.
pub proof fn law_progress(s: ReaderView, events: Seq<EventView>)
    ensures
        run(s, events).key == s.key,
        run(s, events).total_size == s.total_size,
        run(s, events).max_backoff_ms == s.max_backoff_ms,
        run(s, events).bytes_read == s.bytes_read + total_brought(events),
    decreases events.len(),
{
    if events.len() > 0 {
        law_progress(s, events.drop_last());
    }
}

/// Every reconnect asks for the object from the first byte that has not come yet.
pub proof fn law_reconnect_at_first_missing_byte(s: ReaderView, events: Seq<EventView>, i: int)
    requires
        0 <= i < events.len(),
        answers(s, events)[i] is StartReconnect,
    ensures
        answers(s, events)[i]->range_start == s.bytes_read + total_brought(events.take(i)),
{
    lemma_answer_at(s, events, i);
    law_progress(s, events.take(i));
}

proof fn lemma_doubled_backoff(initial_ms: nat, max_ms: nat, k: nat)
    ensures
        least(2 * backoff(initial_ms, max_ms, k), max_ms) == backoff(initial_ms, max_ms, k + 1),
{
    lemma2_to64();
    lemma_pow2_unfold(k + 1);
    assert(initial_ms * pow2(k + 1) == 2 * (initial_ms * pow2(k))) by (nonlinear_arith)
        requires
            pow2(k + 1) == 2 * pow2(k),
    ;
    if k == 0 {
        assert(initial_ms * 1 == initial_ms) by (nonlinear_arith);
    }
}

proof fn lemma_next_backoff(s: ReaderView, events: Seq<EventView>)
    ensures
        run(s, events).next_backoff_ms == backoff(
            s.next_backoff_ms,
            s.max_backoff_ms,
            reconnects(answers(s, events)),
        ),
    decreases events.len(),
{
    if events.len() > 0 {
        let before = events.drop_last();
        lemma_next_backoff(s, before);
        law_progress(s, before);
        assert(answers(s, events).drop_last() =~= answers(s, before));
        if answers(s, events).last() is StartReconnect {
            lemma_doubled_backoff(
                s.next_backoff_ms,
                s.max_backoff_ms,
                reconnects(answers(s, before)),
            );
        }
    }
}

/// The delays of the reconnects are the initial one, then twice the one before each time, and
/// none after the first is over the limit.
pub proof fn law_backoff_schedule(s: ReaderView, events: Seq<EventView>, i: int)
    requires
        0 <= i < events.len(),
        answers(s, events)[i] is StartReconnect,
    ensures
        ({
            let k = reconnects(answers(s, events).take(i));
            &&& answers(s, events)[i]->delay_ms == backoff(s.next_backoff_ms, s.max_backoff_ms, k)
            &&& k > 0 ==> answers(s, events)[i]->delay_ms <= s.max_backoff_ms
        }),
{
    lemma_answer_at(s, events, i);
    lemma_next_backoff(s, events.take(i));
}

/// Where the initial delay is within the limit, a later reconnect waits at least as long as an
/// earlier one.
pub proof fn law_backoff_never_shrinks(initial_ms: nat, max_ms: nat, j: nat, k: nat)
    requires
        j <= k,
        initial_ms <= max_ms,
    ensures
        backoff(initial_ms, max_ms, j) <= backoff(initial_ms, max_ms, k) <= max_ms,
    decreases k,
{
    if j < k {
        let l = (k - 1) as nat;
        law_backoff_never_shrinks(initial_ms, max_ms, j, l);
        lemma2_to64();
        lemma_pow2_unfold(k);
        assert(initial_ms * pow2(k) >= initial_ms * pow2(l) && (pow2(l) >= 1 ==> initial_ms * pow2(
            l,
        ) >= initial_ms)) by (nonlinear_arith)
            requires
                pow2(k) == 2 * pow2(l),
        ;
        lemma_pow2_pos(l);
    }
}

proof fn lemma_reconnects_grow(actions: Seq<ActionView>, i: int, j: int)
    requires
        0 <= i <= j <= actions.len(),
    ensures
        reconnects(actions.take(i)) <= reconnects(actions.take(j)),
    decreases j,
{
    if i < j {
        assert(actions.take(j).drop_last() =~= actions.take(j - 1));
        lemma_reconnects_grow(actions, i, j - 1);
    }
}

/// Over a download whose initial delay is within the limit, the delays never shrink.
pub proof fn law_delays_never_shrink(s: ReaderView, events: Seq<EventView>, i: int, j: int)
    requires
        0 <= i <= j < events.len(),
        answers(s, events)[i] is StartReconnect,
        answers(s, events)[j] is StartReconnect,
        s.next_backoff_ms <= s.max_backoff_ms,
    ensures
        answers(s, events)[i]->delay_ms <= answers(s, events)[j]->delay_ms,
{
    lemma_answers_len(s, events);
    law_backoff_schedule(s, events, i);
    law_backoff_schedule(s, events, j);
    lemma_reconnects_grow(answers(s, events), i, j);
    law_backoff_never_shrinks(
        s.next_backoff_ms,
        s.max_backoff_ms,
        reconnects(answers(s, events).take(i)),
        reconnects(answers(s, events).take(j)),
    );
}

/// The state once `k` reconnects have been asked for, one straight after the other.
pub open spec fn after_reconnects(s: ReaderView, k: nat) -> ReaderView
    decreases k,
{
    if k == 0 {
        s
    } else {
        after_reconnects(s, (k - 1) as nat).resume().0
    }
}

/// Any number of reconnects can be asked for. The one after `k` others waits for the delay that
/// is due, at the same byte as they did; each of them took a retry while there was one, and none
/// once there was none.
pub proof fn law_reconnects_in_a_row(s: ReaderView, k: nat)
    ensures
        after_reconnects(s, k).resume().1 == (ActionView::StartReconnect {
            delay_ms: backoff(s.next_backoff_ms, s.max_backoff_ms, k),
            range_start: s.bytes_read,
        }),
        after_reconnects(s, k).retries_remaining == if k <= s.retries_remaining {
            s.retries_remaining - k
        } else {
            0
        },
        k > 0 ==> after_reconnects(s, k).next_backoff_ms <= s.max_backoff_ms,
        after_reconnects(s, k).max_backoff_ms == s.max_backoff_ms,
        after_reconnects(s, k).bytes_read == s.bytes_read,
        after_reconnects(s, k).total_size == s.total_size,
        after_reconnects(s, k).key == s.key,
    decreases k,
{
    if k > 0 {
        let l = (k - 1) as nat;
        law_reconnects_in_a_row(s, l);
        lemma_doubled_backoff(s.next_backoff_ms, s.max_backoff_ms, l);
    }
}

/// Doubling never leaves the range of a machine word: whatever happens to a reader whose delay,
/// limit and budget fit in the words that hold them, they still fit, and so does every delay that
/// it asks for.
pub proof fn law_delays_and_budget_stay_in_range(s: ReaderView, events: Seq<EventView>)
    requires
        s.next_backoff_ms <= u64::MAX,
        s.max_backoff_ms <= u64::MAX,
        s.retries_remaining <= u8::MAX,
    ensures
        run(s, events).next_backoff_ms <= u64::MAX,
        run(s, events).max_backoff_ms <= u64::MAX,
        run(s, events).retries_remaining <= s.retries_remaining,
        run(s, events).resume().1->delay_ms <= u64::MAX,
        run(s, events).resume().0.next_backoff_ms <= u64::MAX,
        run(s, events).retries_remaining == 0 ==> run(s, events).resume().0.retries_remaining == 0,
    decreases events.len(),
{
    if events.len() > 0 {
        law_delays_and_budget_stay_in_range(s, events.drop_last());
    }
}

/// The key is a label only: it reaches no answer and no other part of the state.
pub proof fn law_key_is_a_label(s: ReaderView, key: Seq<char>, events: Seq<EventView>)
    ensures
        answers(ReaderView { key, ..s }, events) == answers(s, events),
        run(ReaderView { key, ..s }, events) == (ReaderView { key, ..run(s, events) }),
    decreases events.len(),
{
    if events.len() > 0 {
        law_key_is_a_label(s, key, events.drop_last());
    }
}

/// Two readers that differ in their keys alone ask for the same reconnect, and still differ in
/// their keys alone after it.
pub proof fn law_key_does_not_reach_a_reconnect(s: ReaderView, key: Seq<char>)
    ensures
        (ReaderView { key, ..s }).resume() == (
            ReaderView { key, ..s.resume().0 },
            s.resume().1,
        ),
{
}

/// An open stream stands at the first byte that has not come yet, and so does the one that a
/// reconnect under way will bring.
proof fn lemma_stream_in_step(s: ReaderView, events: Seq<EventView>)
    requires
        s.is_fresh(),
        possible(s, events),
    ensures
        run(s, events).phase is Reading ==> stream_position(s, events) == run(
            s,
            events,
        ).bytes_read,
        run(s, events).phase is Reconnecting ==> last_range_start(answers(s, events)) == run(
            s,
            events,
        ).bytes_read,
    decreases events.len(),
{
    if events.len() > 0 {
        lemma_stream_in_step(s, events.drop_last());
        assert(answers(s, events).drop_last() =~= answers(s, events.drop_last()));
    }
}

/// However often a download is interrupted, the consumer gets the bytes of the object from the
/// start on, in order, with none lost and none twice.
pub proof fn law_consumer_gets_the_object(
    object: Seq<u8>,
    s: ReaderView,
    events: Seq<EventView>,
    chunks: Seq<Seq<u8>>,
)
    requires
        s.is_fresh(),
        possible(s, events),
        served_from(object, s, events, chunks),
    ensures
        run(s, events).bytes_read <= object.len(),
        joined(chunks) == object.take(run(s, events).bytes_read as int),
    decreases events.len(),
{
    if events.len() == 0 {
        assert(joined(chunks) =~= object.take(0));
    } else {
        let last = events.len() - 1;
        let before = events.drop_last();
        assert(events.take(last) =~= before);
        let chunks_before = chunks.drop_last();
        assert forall|i: int| 0 <= i < before.len() implies served(
            object,
            s,
            before,
            i,
            #[trigger] chunks_before[i],
        ) by {
            assert(before.take(i) =~= events.take(i));
            assert(chunks_before[i] == chunks[i]);
        }
        law_consumer_gets_the_object(object, s, before, chunks_before);
        lemma_stream_in_step(s, before);
        assert(chunks[last] == chunks.last());
        assert(joined(chunks) =~= object.take(run(s, events).bytes_read as int));
    }
}

/// While retries are left, an end of the stream that reaches the consumer is the end of the
/// object, if its size is known: it then has at least that many bytes.
pub proof fn law_end_is_not_premature(s: ReaderView, events: Seq<EventView>, i: int)
    requires
        0 <= i < events.len(),
        events[i] == EventView::Filled(0),
        answers(s, events)[i] == ActionView::Ready(Ok(())),
        run(s, events.take(i)).retries_remaining > 0,
    ensures
        s.total_size matches Some(total) ==> s.bytes_read + total_brought(events.take(i)) >= total,
{
    lemma_answer_at(s, events, i);
    law_progress(s, events.take(i));
}

/// A download of known size that ends with retries to spare has given the consumer the whole
/// object.
pub proof fn law_clean_end_is_complete(
    object: Seq<u8>,
    s: ReaderView,
    events: Seq<EventView>,
    chunks: Seq<Seq<u8>>,
)
    requires
        s.is_fresh(),
        possible(s, events),
        served_from(object, s, events, chunks),
        s.total_size == Some(object.len() as u64),
        object.len() <= u64::MAX,
        events.len() > 0,
        events.last() == EventView::Filled(0),
        answers(s, events).last() == ActionView::Ready(Ok(())),
        run(s, events).retries_remaining > 0,
    ensures
        joined(chunks) == object,
{
    let last = events.len() - 1;
    assert(events.take(last) =~= events.drop_last());
    lemma_answer_at(s, events, last);
    law_end_is_not_premature(s, events, last);
    law_consumer_gets_the_object(object, s, events, chunks);
    law_progress(s, events);
    assert(object.take(object.len() as int) =~= object);
}

/// Where the size is unknown, whatever the stream brings goes to the consumer, an early end
/// included.
pub proof fn law_unknown_size_takes_any_end(s: ReaderView, n: nat)
    requires
        s.total_size is None,
    ensures
        s.step(EventView::Filled(n)) == (s.advanced(n), ActionView::Ready(Ok(()))),
{
}

/// A failure that may be retried stays hidden from the consumer while retries are left.
pub proof fn law_retryable_failure_is_hidden(s: ReaderView, e: IoErrorView)
    requires
        s.retries_remaining > 0,
        retryable(e.kind),
    ensures
        s.step(EventView::ReadFailed(e)).1 is StartReconnect,
        s.step(EventView::ReconnectFailed(e)).1 is StartReconnect,
{
}

/// An end of the stream that comes too early stays hidden from the consumer in the same way.
pub proof fn law_premature_end_is_hidden(s: ReaderView)
    requires
        s.retries_remaining > 0,
        s.is_short(),
    ensures
        s.step(EventView::Filled(0)).1 is StartReconnect,
{
}

/// Any other failure reaches the consumer as it is, at once and on every poll after that.
pub proof fn law_final_failure_is_reported(s: ReaderView, e: IoErrorView)
    requires
        s.retries_remaining == 0 || !retryable(e.kind),
    ensures
        s.step(EventView::ReadFailed(e)) == (s.dead(e), ActionView::Ready(Err(e))),
        s.step(EventView::ReconnectFailed(e)) == (s.dead(e), ActionView::Ready(Err(e))),
        s.dead(e).step(EventView::Polled) == (s.dead(e), ActionView::Ready(Err(e))),
{
}

/// An error that reaches the consumer is final: the reader is dead of it.
pub proof fn law_reported_error_is_final(s: ReaderView, events: Seq<EventView>, i: int)
    requires
        0 <= i < events.len(),
    ensures
        answers(s, events)[i] matches ActionView::Ready(Err(e)) ==> run(
            s,
            events.take(i + 1),
        ).phase == Phase::Dead(e),
{
    lemma_answer_at(s, events, i);
    assert(events.take(i + 1).drop_last() =~= events.take(i));
}

/// A dead reader stays as it is and answers every poll with the error that it died of.
pub proof fn law_dead_stays_dead(s: ReaderView, events: Seq<EventView>)
    requires
        s.phase is Dead,
        possible(s, events),
    ensures
        run(s, events) == s,
        forall|i: int|
            0 <= i < events.len() ==> #[trigger] answers(s, events)[i] == ActionView::Ready(
                Err(s.phase->Dead_0),
            ),
    decreases events.len(),
{
    lemma_answers_len(s, events);
    if events.len() > 0 {
        law_dead_stays_dead(s, events.drop_last());
        lemma_answers_len(s, events.drop_last());
        assert forall|i: int| 0 <= i < events.len() implies #[trigger] answers(s, events)[i]
            == ActionView::Ready(Err(s.phase->Dead_0)) by {
            if i < events.len() - 1 {
                assert(answers(s, events)[i] == answers(s, events.drop_last())[i]);
            }
        }
    }
}

/// Asking and waiting change nothing.
pub proof fn law_waiting_changes_nothing(s: ReaderView)
    ensures
        s.step(EventView::Polled).0 == s,
        s.step(EventView::ReconnectPending) == (s, ActionView::Pending),
        s.step(EventView::ReadPending) == (s, ActionView::Pending),
{
}

/// How many more events can pass before the consumer is answered: two for each retry left, and
/// one for a reconnect under way.
pub open spec fn patience(s: ReaderView) -> nat {
    2 * s.retries_remaining + (if s.phase is Reconnecting {
        1nat
    } else {
        0nat
    })
}

/// A poll comes to an end: streams that open and break can keep the consumer waiting for a
/// bounded number of events only.
pub proof fn law_poll_ends(s: ReaderView, events: Seq<EventView>)
    requires
        possible(s, events),
        forall|i: int| 0 <= i < events.len() ==> !(#[trigger] events[i] is Polled),
        forall|i: int|
            0 <= i < events.len() ==> !(#[trigger] answers(s, events)[i] is Ready) && !(answers(
                s,
                events,
            )[i] is Pending),
    ensures
        events.len() + patience(run(s, events)) <= patience(s),
    decreases events.len(),
{
    if events.len() > 0 {
        let before = events.drop_last();
        lemma_answers_len(s, before);
        lemma_answers_len(s, events);
        assert forall|i: int| 0 <= i < before.len() implies !(#[trigger] answers(
            s,
            before,
        )[i] is Ready) && !(answers(s, before)[i] is Pending) by {
            assert(answers(s, events)[i] == answers(s, before)[i]);
        }
        assert forall|i: int| 0 <= i < before.len() implies !(#[trigger] before[i] is Polled) by {
            assert(before[i] == events[i]);
        }
        law_poll_ends(s, before);
        assert(!(events[events.len() - 1] is Polled));
        assert(!(answers(s, events)[events.len() - 1] is Ready));
    }
}

/// A failed reconnect is tried again exactly if the service did not refuse the request for good.
pub proof fn law_refusal_is_not_retried(status: Option<u16>, text: Seq<char>)
    ensures
        retryable(reconnect_error(status, text).kind) <==> !request_refused(status),
{
}

/// Once the object has been replaced the download fails, however many retries are left: bytes of
/// two objects never meet.
pub proof fn law_replaced_object_ends_download(s: ReaderView, status: Option<u16>, text: Seq<char>)
    requires
        object_replaced(status),
    ensures
        ({
            let e = reconnect_error(status, text);
            s.step(EventView::ReconnectFailed(e)) == (s.dead(e), ActionView::Ready(Err(e)))
        }),
{
}

} // verus!
