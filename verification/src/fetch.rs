//! The request protocol of the signal query: one request borrows a pooled
//! connection, runs the fixed query with the signal type as its bound
//! parameter, gives the connection back and answers. The caller performs the
//! waiting steps and reports each result as an event; what to do next is
//! decided here.

use crate::health::STATUS_OK;
use crate::signal::{
    all_readable, read_signals, readings_of, rows_view, signals_view, Signal, SignalView, StoredRow,
    StoredRowView,
};
use vstd::prelude::*;
use vstd::string::*;

verus! {

/// The most rows that one answer holds.
pub const ROW_LIMIT: usize = 10;

/// The text of the one query this service runs. The signal type is its
/// parameter `$1` and never part of the text.
pub open spec fn query_text() -> Seq<char> {
    "SELECT id, signal_type, value, timestamp FROM machine_signals WHERE signal_type = $1 ORDER BY timestamp DESC LIMIT 10;"@
}

/// The text of the query.
pub fn signals_query() -> (text: &'static str)
    ensures
        text@ == query_text(),
{
    "SELECT id, signal_type, value, timestamp FROM machine_signals WHERE signal_type = $1 ORDER BY timestamp DESC LIMIT 10;"
}

/// The step of a request at which it failed.
#[derive(Debug, Clone, Copy, PartialEq, Eq)]
pub enum Stage {
    /// No connection could be had from the pool.
    Acquire,
    /// The database did not carry out the query.
    Query,
    /// A row came back whose instant has no UTC date-time.
    Decode,
}

/// What the log says before the cause of a failure.
pub open spec fn log_prefix(stage: Stage) -> Seq<char> {
    match stage {
        Stage::Acquire => "Failed to get database connection"@,
        Stage::Query => "Query execution error"@,
        Stage::Decode => "Row mapping error"@,
    }
}

/// The cause logged for a row that cannot be mapped.
pub open spec fn decode_cause() -> Seq<char> {
    "timestamp outside the range of representable dates"@
}

/// What the log says after a successful fetch.
pub open spec fn fetched_notice() -> Seq<char> {
    "Fetched data"@
}

impl Stage {
    /// The text logged before the cause of a failure at this stage.
    pub fn prefix(&self) -> (text: &'static str)
        ensures
            text@ == log_prefix(*self),
    {
        match self {
            Stage::Acquire => "Failed to get database connection",
            Stage::Query => "Query execution error",
            Stage::Decode => "Row mapping error",
        }
    }
}

/// How a fetch ended. An empty answer for want of data and an empty answer
/// because the database failed are told apart here, though a client sees the
/// same reply for both.
#[derive(Debug, Clone, PartialEq, Eq)]
pub enum FetchOutcome {
    /// The query ran; these are its rows, newest first as the database
    /// returned them, possibly none.
    Found(Vec<Signal>),
    /// The request failed at `stage`.
    Failed { stage: Stage, cause: String },
}

/// Mathematical content of a [`FetchOutcome`].
pub enum OutcomeView {
    Found(Seq<SignalView>),
    Failed { stage: Stage, cause: Seq<char> },
}

impl View for FetchOutcome {
    type V = OutcomeView;

    open spec fn view(&self) -> OutcomeView {
        match *self {
            FetchOutcome::Found(signals) => OutcomeView::Found(signals_view(signals@)),
            FetchOutcome::Failed { stage, cause } => OutcomeView::Failed { stage, cause: cause@ },
        }
    }
}

impl OutcomeView {
    /// The readings sent to the client: those found, or none after a failure.
    pub open spec fn signals(self) -> Seq<SignalView> {
        match self {
            OutcomeView::Found(signals) => signals,
            OutcomeView::Failed { .. } => Seq::empty(),
        }
    }

    /// The line written to the log for this outcome.
    pub open spec fn log_line(self) -> Seq<char> {
        match self {
            OutcomeView::Found(_) => fetched_notice(),
            OutcomeView::Failed { stage, cause } => log_prefix(stage) + ": "@ + cause,
        }
    }
}

/// The answer to a signal request: a status code and the readings.
#[derive(Debug, Clone, PartialEq, Eq)]
pub struct SignalsReply {
    pub code: u16,
    pub body: Vec<Signal>,
}

impl FetchOutcome {
    /// Whether the request failed on the way to the database or back.
    pub fn is_failure(&self) -> (failed: bool)
        ensures
            failed == (self@ is Failed),
    {
        match self {
            FetchOutcome::Found(_) => false,
            FetchOutcome::Failed { .. } => true,
        }
    }

    /// The line to log for this outcome: the stage's prefix and the cause
    /// after a failure, a fixed notice after a fetch.
    pub fn log_line(&self) -> (line: String)
        ensures
            line@ == self@.log_line(),
    {
        match self {
            FetchOutcome::Found(_) => String::from_str("Fetched data"),
            FetchOutcome::Failed { stage, cause } => {
                let mut line = String::from_str(stage.prefix());
                line.append(": ");
                line.append(cause.as_str());
                line
            },
        }
    }

    /// The reply sent to the client. The status is 200 whatever happened; a
    /// failure is answered with an empty list.
    pub fn into_reply(self) -> (reply: SignalsReply)
        ensures
            reply.code == 200,
            signals_view(reply.body@) == self@.signals(),
            reply.body@.len() == self@.signals().len(),
    {
        match self {
            FetchOutcome::Found(signals) => SignalsReply { code: STATUS_OK, body: signals },
            FetchOutcome::Failed { .. } => {
                let body: Vec<Signal> = Vec::new();
                assert(signals_view(body@) =~= Seq::empty());
                SignalsReply { code: STATUS_OK, body }
            },
        }
    }
}

/// Where a request stands.
#[derive(Debug, Clone, PartialEq, Eq)]
pub enum FetchState {
    /// Waiting for a connection from the pool.
    Acquiring { signal_type: String },
    /// Holding a connection on which the query runs.
    Querying,
    /// Holding a connection that is to be given back; the outcome is settled.
    Releasing { outcome: FetchOutcome },
    /// Answered. No connection is held.
    Done,
}

/// What the caller reports back after carrying out an action.
#[derive(Debug, Clone, PartialEq, Eq)]
pub enum FetchEvent {
    /// The pool handed out a connection.
    Acquired,
    /// The pool handed out none.
    AcquireFailed { cause: String },
    /// The query ran and returned these rows.
    Rows { rows: Vec<StoredRow> },
    /// The query failed.
    QueryFailed { cause: String },
    /// The connection is back in the pool.
    Released,
}

/// What the caller is to do next.
#[derive(Debug, Clone, PartialEq, Eq)]
pub enum FetchAction {
    /// Ask the pool for a connection.
    Acquire,
    /// Run `text` on the held connection with `parameter` bound to `$1`.
    Query { text: String, parameter: String },
    /// Give the held connection back to the pool.
    Release,
    /// Log the outcome and send its reply.
    Respond { outcome: FetchOutcome },
    /// The event does not belong to the state the request is in: do nothing.
    Reject,
}

/// Mathematical content of a [`FetchState`].
pub enum StateView {
    Acquiring { signal_type: Seq<char> },
    Querying,
    Releasing { outcome: OutcomeView },
    Done,
}

/// Mathematical content of a [`FetchEvent`].
pub enum EventView {
    Acquired,
    AcquireFailed { cause: Seq<char> },
    Rows { rows: Seq<StoredRowView> },
    QueryFailed { cause: Seq<char> },
    Released,
}

/// Mathematical content of a [`FetchAction`].
pub enum ActionView {
    Acquire,
    Query { text: Seq<char>, parameter: Seq<char> },
    Release,
    Respond { outcome: OutcomeView },
    Reject,
}

impl View for FetchState {
    type V = StateView;

    open spec fn view(&self) -> StateView {
        match *self {
            FetchState::Acquiring { signal_type } => StateView::Acquiring {
                signal_type: signal_type@,
            },
            FetchState::Querying => StateView::Querying,
            FetchState::Releasing { outcome } => StateView::Releasing { outcome: outcome@ },
            FetchState::Done => StateView::Done,
        }
    }
}

impl View for FetchEvent {
    type V = EventView;

    open spec fn view(&self) -> EventView {
        match *self {
            FetchEvent::Acquired => EventView::Acquired,
            FetchEvent::AcquireFailed { cause } => EventView::AcquireFailed { cause: cause@ },
            FetchEvent::Rows { rows } => EventView::Rows { rows: rows_view(rows@) },
            FetchEvent::QueryFailed { cause } => EventView::QueryFailed { cause: cause@ },
            FetchEvent::Released => EventView::Released,
        }
    }
}

impl View for FetchAction {
    type V = ActionView;

    open spec fn view(&self) -> ActionView {
        match *self {
            FetchAction::Acquire => ActionView::Acquire,
            FetchAction::Query { text, parameter } => ActionView::Query {
                text: text@,
                parameter: parameter@,
            },
            FetchAction::Release => ActionView::Release,
            FetchAction::Respond { outcome } => ActionView::Respond { outcome: outcome@ },
            FetchAction::Reject => ActionView::Reject,
        }
    }
}

/// The outcome of a query that returned `rows`: their readings, one for one
/// and in the same order, or a decoding failure where a row has none.
pub open spec fn outcome_of_rows(rows: Seq<StoredRowView>) -> OutcomeView {
    if all_readable(rows) {
        OutcomeView::Found(readings_of(rows))
    } else {
        OutcomeView::Failed { stage: Stage::Decode, cause: decode_cause() }
    }
}

/// The protocol: the state that follows `state` on `event`, and the action
/// asked of the caller.
pub open spec fn next(state: StateView, event: EventView) -> (StateView, ActionView) {
    match (state, event) {
        (StateView::Acquiring { signal_type }, EventView::Acquired) => (
            StateView::Querying,
            ActionView::Query { text: query_text(), parameter: signal_type },
        ),
        (StateView::Acquiring { .. }, EventView::AcquireFailed { cause }) => (
            StateView::Done,
            ActionView::Respond { outcome: OutcomeView::Failed { stage: Stage::Acquire, cause } },
        ),
        (StateView::Querying, EventView::Rows { rows }) => (
            StateView::Releasing { outcome: outcome_of_rows(rows) },
            ActionView::Release,
        ),
        (StateView::Querying, EventView::QueryFailed { cause }) => (
            StateView::Releasing { outcome: OutcomeView::Failed { stage: Stage::Query, cause } },
            ActionView::Release,
        ),
        (StateView::Releasing { outcome }, EventView::Released) => (
            StateView::Done,
            ActionView::Respond { outcome },
        ),
        (state, _) => (state, ActionView::Reject),
    }
}

/// Turns the rows of a query result into the outcome of the fetch.
pub fn outcome_from_rows(rows: Vec<StoredRow>) -> (outcome: FetchOutcome)
    ensures
        outcome@ == outcome_of_rows(rows_view(rows@)),
{
    match read_signals(rows) {
        Some(signals) => FetchOutcome::Found(signals),
        None => FetchOutcome::Failed {
            stage: Stage::Decode,
            cause: String::from_str("timestamp outside the range of representable dates"),
        },
    }
}

/// Starts a request for the readings of `signal_type`, which is taken as it
/// is. The first thing to do is always to ask the pool for a connection.
pub fn begin(signal_type: String) -> (r: (FetchState, FetchAction))
    ensures
        r.0@ == (StateView::Acquiring { signal_type: signal_type@ }),
        r.1@ == ActionView::Acquire,
{
    (FetchState::Acquiring { signal_type }, FetchAction::Acquire)
}

/// Advances a request by one event.
pub fn step(state: FetchState, event: FetchEvent) -> (r: (FetchState, FetchAction))
    ensures
        (r.0@, r.1@) == next(state@, event@),
{
    match state {
        FetchState::Acquiring { signal_type } => match event {
            FetchEvent::Acquired => (
                FetchState::Querying,
                FetchAction::Query {
                    text: String::from_str(signals_query()),
                    parameter: signal_type,
                },
            ),
            FetchEvent::AcquireFailed { cause } => (
                FetchState::Done,
                FetchAction::Respond {
                    outcome: FetchOutcome::Failed { stage: Stage::Acquire, cause },
                },
            ),
            _ => (FetchState::Acquiring { signal_type }, FetchAction::Reject),
        },
        FetchState::Querying => match event {
            FetchEvent::Rows { rows } => (
                FetchState::Releasing { outcome: outcome_from_rows(rows) },
                FetchAction::Release,
            ),
            FetchEvent::QueryFailed { cause } => (
                FetchState::Releasing {
                    outcome: FetchOutcome::Failed { stage: Stage::Query, cause },
                },
                FetchAction::Release,
            ),
            _ => (FetchState::Querying, FetchAction::Reject),
        },
        FetchState::Releasing { outcome } => match event {
            FetchEvent::Released => (FetchState::Done, FetchAction::Respond { outcome }),
            _ => (FetchState::Releasing { outcome }, FetchAction::Reject),
        },
        FetchState::Done => (FetchState::Done, FetchAction::Reject),
    }
}

} // verus!
