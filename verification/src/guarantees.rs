//! What holds of every request, proved from the protocol in
//! [`crate::fetch`]: how a connection is borrowed and given back, and what a
//! client is sent for what the database returned.

use crate::fetch::{next, outcome_of_rows, ActionView, EventView, OutcomeView, StateView, ROW_LIMIT};
use crate::signal::{all_readable, reading_of, readings_of, SignalView, StoredRowView};
use vstd::prelude::*;

verus! {

/// A request in this state holds a connection of the pool.
pub open spec fn holds_connection(state: StateView) -> bool {
    state is Querying || state is Releasing
}

/// The state reached from `state` after the events of `events`, in order.
pub open spec fn run(state: StateView, events: Seq<EventView>) -> StateView
    decreases events.len(),
{
    if events.len() == 0 {
        state
    } else {
        run(next(state, events[0]).0, events.drop_first())
    }
}

/// How many connections the pool handed to the request along the run: the
/// `Acquired` events that arrived while it was waiting for one.
pub open spec fn grants(state: StateView, events: Seq<EventView>) -> nat
    decreases events.len(),
{
    if events.len() == 0 {
        0
    } else {
        let granted: nat = if state is Acquiring && events[0] is Acquired {
            1
        } else {
            0
        };
        granted + grants(next(state, events[0]).0, events.drop_first())
    }
}

/// How many connections went back to the pool along the run: the `Released`
/// events that arrived while the request was giving one back.
pub open spec fn returned(state: StateView, events: Seq<EventView>) -> nat
    decreases events.len(),
{
    if events.len() == 0 {
        0
    } else {
        let back: nat = if state is Releasing && events[0] is Released {
            1
        } else {
            0
        };
        back + returned(next(state, events[0]).0, events.drop_first())
    }
}

/// How many answers were sent along the run.
pub open spec fn answers(state: StateView, events: Seq<EventView>) -> nat
    decreases events.len(),
{
    if events.len() == 0 {
        0
    } else {
        let answered: nat = if next(state, events[0]).1 is Respond {
            1
        } else {
            0
        };
        answered + answers(next(state, events[0]).0, events.drop_first())
    }
}

/// The number of connections that a request in this state holds: one or none.
pub open spec fn held(state: StateView) -> nat {
    if holds_connection(state) {
        1
    } else {
        0
    }
}

/// Whatever events arrive and in whatever order, a request never holds more
/// than one connection, and every connection it was granted and no longer
/// holds has gone back to the pool: granted connections are those returned
/// plus the one still held, if any.
pub proof fn lemma_connections_balance(state: StateView, events: Seq<EventView>)
    ensures
        held(state) + grants(state, events) == returned(state, events) + held(run(state, events)),
    decreases events.len(),
{
    if events.len() > 0 {
        lemma_connections_balance(next(state, events[0]).0, events.drop_first());
    }
}

/// A request that has come to its end holds no connection: each one granted
/// to it along the way has been returned, whether the query succeeded or not.
pub proof fn lemma_no_connection_leaks(signal_type: Seq<char>, events: Seq<EventView>)
    requires
        run(StateView::Acquiring { signal_type }, events) is Done,
    ensures
        grants(StateView::Acquiring { signal_type }, events) == returned(
            StateView::Acquiring { signal_type },
            events,
        ),
{
    lemma_connections_balance(StateView::Acquiring { signal_type }, events);
}

/// An answer is only ever sent by a request that holds no connection any
/// more, and sending it ends the request.
pub proof fn lemma_answer_ends_request(state: StateView, event: EventView)
    requires
        next(state, event).1 is Respond,
    ensures
        next(state, event).0 is Done,
        !holds_connection(next(state, event).0),
        state is Releasing <==> holds_connection(state),
{
}

/// A request is answered at most once, and exactly once if it has ended.
pub proof fn lemma_one_answer(signal_type: Seq<char>, events: Seq<EventView>)
    ensures
        answers(StateView::Acquiring { signal_type }, events) == if run(
            StateView::Acquiring { signal_type },
            events,
        ) is Done {
            1nat
        } else {
            0nat
        },
{
    lemma_answers_count(StateView::Acquiring { signal_type }, events);
}

/// The count behind [`lemma_one_answer`], from any state: the answers sent
/// along a run, and the one sent before it if the request had ended already,
/// make one if the request has ended and none otherwise.
proof fn lemma_answers_count(state: StateView, events: Seq<EventView>)
    ensures
        answers(state, events) + (if state is Done { 1nat } else { 0nat })
            == if run(state, events) is Done { 1nat } else { 0nat },
    decreases events.len(),
{
    if events.len() > 0 {
        lemma_answers_count(next(state, events[0]).0, events.drop_first());
    }
}

/// The instant `(secs_a, nanos_a)` is no later than `(secs_b, nanos_b)`.
pub open spec fn no_later(secs_a: i64, nanos_a: u32, secs_b: i64, nanos_b: u32) -> bool {
    secs_a < secs_b || (secs_a == secs_b && nanos_a <= nanos_b)
}

/// The rows stand newest first: none is later than one before it.
pub open spec fn rows_newest_first(rows: Seq<StoredRowView>) -> bool {
    forall|i: int, j: int|
        0 <= i < j < rows.len() ==> no_later(
            #[trigger] rows[j].unix_secs,
            rows[j].subsec_nanos,
            #[trigger] rows[i].unix_secs,
            rows[i].subsec_nanos,
        )
}

/// The readings stand newest first: none is later than one before it.
pub open spec fn newest_first(signals: Seq<SignalView>) -> bool {
    forall|i: int, j: int|
        0 <= i < j < signals.len() ==> no_later(
            #[trigger] signals[j].timestamp.unix_secs,
            signals[j].timestamp.subsec_nanos,
            #[trigger] signals[i].timestamp.unix_secs,
            signals[i].timestamp.subsec_nanos,
        )
}

/// The rows of `table` whose signal type is `signal_type`.
pub open spec fn matching(table: Seq<StoredRowView>, signal_type: Seq<char>) -> Seq<
    StoredRowView,
> {
    table.filter(|row: StoredRowView| row.signal_type == signal_type)
}

/// The number of rows that the query returns when `found` rows match.
pub open spec fn limited(found: nat) -> nat {
    if found >= ROW_LIMIT {
        ROW_LIMIT as nat
    } else {
        found
    }
}

/// What the query means: `rows` is what a database holding `table` returns
/// for `signal_type`. It returns rows of that type only, as many as there are
/// up to the limit, newest first, and leaves out none that is later than one
/// it returns.
pub open spec fn is_query_result(
    table: Seq<StoredRowView>,
    signal_type: Seq<char>,
    rows: Seq<StoredRowView>,
) -> bool {
    let hits = matching(table, signal_type);
    &&& rows.len() == limited(hits.len())
    &&& rows_newest_first(rows)
    &&& forall|i: int| 0 <= i < rows.len() ==> hits.contains(#[trigger] rows[i])
    &&& forall|k: int, i: int|
        0 <= k < hits.len() && 0 <= i < rows.len() && !rows.contains(hits[k]) ==> no_later(
            #[trigger] hits[k].unix_secs,
            hits[k].subsec_nanos,
            #[trigger] rows[i].unix_secs,
            rows[i].subsec_nanos,
        )
}

/// The outcome with which a request for `signal_type` is answered when the
/// pool grants a connection, the query returns `rows` and the connection is
/// given back.
pub open spec fn outcome_for_rows(signal_type: Seq<char>, rows: Seq<StoredRowView>) -> OutcomeView {
    let acquiring = StateView::Acquiring { signal_type };
    let querying = next(acquiring, EventView::Acquired).0;
    let releasing = next(querying, EventView::Rows { rows }).0;
    match next(releasing, EventView::Released).1 {
        ActionView::Respond { outcome } => outcome,
        _ => arbitrary(),
    }
}

/// The readings sent for a query result are those of its rows, one for one
/// and in the same order, each with the columns of its row: as many readings
/// as rows, newest first where the rows are, and of the rows' signal types.
pub proof fn lemma_answer_follows_rows(signal_type: Seq<char>, rows: Seq<StoredRowView>)
    requires
        all_readable(rows),
    ensures
        outcome_for_rows(signal_type, rows) == OutcomeView::Found(readings_of(rows)),
        readings_of(rows).len() == rows.len(),
        forall|i: int|
            0 <= i < rows.len() ==> {
                let reading = #[trigger] readings_of(rows)[i];
                &&& reading.id == rows[i].id
                &&& reading.signal_type == rows[i].signal_type
                &&& reading.value_bits == rows[i].value_bits
                &&& reading.timestamp.unix_secs == rows[i].unix_secs
                &&& reading.timestamp.subsec_nanos == rows[i].subsec_nanos
            },
        rows_newest_first(rows) ==> newest_first(readings_of(rows)),
{
    assert(outcome_of_rows(rows) == OutcomeView::Found(readings_of(rows)));
    assert forall|i: int| 0 <= i < rows.len() implies {
        let reading = #[trigger] readings_of(rows)[i];
        &&& reading.id == rows[i].id
        &&& reading.signal_type == rows[i].signal_type
        &&& reading.value_bits == rows[i].value_bits
        &&& reading.timestamp.unix_secs == rows[i].unix_secs
        &&& reading.timestamp.subsec_nanos == rows[i].subsec_nanos
    } by {
        assert(reading_of(rows[i]) is Some);
    }
}

/// Where the database answers the query as it is meant, a request for a
/// signal type with `n` stored rows is answered with exactly `n` readings if
/// `n` is under the limit and with exactly as many as the limit otherwise,
/// all of that signal type, newest first. With no stored row of that type the
/// answer is empty.
pub proof fn lemma_answer_is_latest_rows(
    table: Seq<StoredRowView>,
    signal_type: Seq<char>,
    rows: Seq<StoredRowView>,
)
    requires
        is_query_result(table, signal_type, rows),
        all_readable(rows),
    ensures
        outcome_for_rows(signal_type, rows) is Found,
        outcome_for_rows(signal_type, rows).signals().len() == limited(
            matching(table, signal_type).len(),
        ),
        matching(table, signal_type).len() == 0 ==> outcome_for_rows(signal_type, rows).signals()
            == Seq::<SignalView>::empty(),
        newest_first(outcome_for_rows(signal_type, rows).signals()),
        forall|i: int|
            0 <= i < outcome_for_rows(signal_type, rows).signals().len() ==> (
            #[trigger] outcome_for_rows(signal_type, rows).signals()[i]).signal_type
                == signal_type,
{
    lemma_answer_follows_rows(signal_type, rows);
    let sent = outcome_for_rows(signal_type, rows).signals();
    assert(sent == readings_of(rows));
    assert forall|i: int| 0 <= i < sent.len() implies (#[trigger] sent[i]).signal_type
        == signal_type by {
        let hits = matching(table, signal_type);
        assert(hits.contains(rows[i]));
        let k = choose|k: int| 0 <= k < hits.len() && hits[k] == rows[i];
        table.lemma_filter_pred(|row: StoredRowView| row.signal_type == signal_type, k);
    }
    if matching(table, signal_type).len() == 0 {
        assert(sent =~= Seq::<SignalView>::empty());
    }
}

} // verus!
