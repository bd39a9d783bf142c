use data_accessor::fetch::{
    begin, outcome_from_rows, signals_query, step, FetchAction, FetchEvent, FetchOutcome,
    FetchState, SignalsReply, Stage, ROW_LIMIT,
};
use data_accessor::health::{health_check, STATUS_OK};
use data_accessor::signal::StoredRow;

const QUERY: &str = "SELECT id, signal_type, value, timestamp FROM machine_signals WHERE signal_type = $1 ORDER BY timestamp DESC LIMIT 10;";

fn row(id: i32, signal_type: &str, value: f64, unix_secs: i64) -> StoredRow {
    StoredRow {
        id,
        signal_type: signal_type.to_string(),
        value_bits: value.to_bits(),
        unix_secs,
        subsec_nanos: 0,
    }
}

/// Runs a request against a database that grants a connection and answers
/// the query with `rows`; returns the outcome and how often a connection was
/// taken and given back.
fn serve(signal_type: &str, rows: Vec<StoredRow>) -> (FetchOutcome, usize, usize) {
    let (state, action) = begin(signal_type.to_string());
    assert_eq!(action, FetchAction::Acquire);
    let (state, action) = step(state, FetchEvent::Acquired);
    assert_eq!(
        action,
        FetchAction::Query { text: QUERY.to_string(), parameter: signal_type.to_string() }
    );
    let (state, action) = step(state, FetchEvent::Rows { rows });
    assert_eq!(action, FetchAction::Release);
    let (state, action) = step(state, FetchEvent::Released);
    assert_eq!(state, FetchState::Done);
    match action {
        FetchAction::Respond { outcome } => (outcome, 1, 1),
        other => panic!("expected an answer, got {:?}", other),
    }
}

fn ids(reply: &SignalsReply) -> Vec<i32> {
    reply.body.iter().map(|s| s.id).collect()
}

#[test]
fn health_is_fixed() {
    let reply = health_check();
    assert_eq!(reply.code, 200);
    assert_eq!(reply.body.status, "Service is up and running");
    assert_eq!(health_check(), reply);
    assert_eq!(STATUS_OK, 200);
}

#[test]
fn query_is_the_fixed_text() {
    assert_eq!(signals_query(), QUERY);
    assert_eq!(ROW_LIMIT, 10);
}

#[test]
fn two_readings_come_newest_first() {
    let t0: i64 = 1_704_067_200;
    let t1: i64 = 1_704_067_260;
    let (outcome, taken, given_back) =
        serve("temp", vec![row(2, "temp", 22.0, t1), row(1, "temp", 21.5, t0)]);
    assert_eq!(taken, given_back);
    assert!(!outcome.is_failure());
    assert_eq!(outcome.log_line(), "Fetched data");
    let reply = outcome.into_reply();
    assert_eq!(reply.code, 200);
    assert_eq!(ids(&reply), vec![2, 1]);
    assert_eq!(reply.body[0].timestamp.unix_secs, t1);
    assert_eq!(reply.body[1].timestamp.unix_secs, t0);
    assert_eq!(f64::from_bits(reply.body[0].value_bits), 22.0);
    assert_eq!(f64::from_bits(reply.body[1].value_bits), 21.5);
    assert_eq!(reply.body[0].signal_type, "temp");
    assert_eq!(reply.body[0].timestamp.calendar.minute, 1);
    assert_eq!(reply.body[1].timestamp.calendar.minute, 0);
}

#[test]
fn unreachable_database_is_answered_with_empty_list() {
    let (state, _) = begin("temp".to_string());
    let (state, action) =
        step(state, FetchEvent::AcquireFailed { cause: "connection refused".to_string() });
    assert_eq!(state, FetchState::Done);
    let outcome = match action {
        FetchAction::Respond { outcome } => outcome,
        other => panic!("expected an answer, got {:?}", other),
    };
    assert_eq!(
        outcome,
        FetchOutcome::Failed { stage: Stage::Acquire, cause: "connection refused".to_string() }
    );
    assert!(outcome.is_failure());
    assert_eq!(outcome.log_line(), "Failed to get database connection: connection refused");
    let reply = outcome.into_reply();
    assert_eq!(reply.code, 200);
    assert!(reply.body.is_empty());
}

#[test]
fn unknown_type_is_answered_with_empty_list() {
    let (outcome, _, _) = serve("unknown_type", Vec::new());
    assert_eq!(outcome, FetchOutcome::Found(Vec::new()));
    assert!(!outcome.is_failure());
    let reply = outcome.into_reply();
    assert_eq!(reply.code, 200);
    assert!(reply.body.is_empty());
}

#[test]
fn ten_rows_give_ten_readings() {
    let mut rows: Vec<StoredRow> = Vec::new();
    for k in 0..10i32 {
        rows.push(row(100 - k, "rpm", 1.0, 10_000 - i64::from(k)));
    }
    let (outcome, _, _) = serve("rpm", rows);
    let reply = outcome.into_reply();
    assert_eq!(reply.code, 200);
    assert_eq!(reply.body.len(), 10);
    for k in 1..reply.body.len() {
        assert!(reply.body[k].timestamp.unix_secs <= reply.body[k - 1].timestamp.unix_secs);
        assert_eq!(reply.body[k].signal_type, "rpm");
    }
    assert_eq!(ids(&reply), vec![100, 99, 98, 97, 96, 95, 94, 93, 92, 91]);
}

#[test]
fn three_rows_give_three_readings() {
    let rows = vec![row(9, "rpm", 3.0, 30), row(8, "rpm", 2.0, 20), row(7, "rpm", 1.0, 10)];
    let (outcome, _, _) = serve("rpm", rows);
    let reply = outcome.into_reply();
    assert_eq!(ids(&reply), vec![9, 8, 7]);
}

#[test]
fn failed_query_gives_connection_back_before_answering() {
    let (state, _) = begin("temp".to_string());
    let (state, _) = step(state, FetchEvent::Acquired);
    assert_eq!(state, FetchState::Querying);
    let (state, action) =
        step(state, FetchEvent::QueryFailed { cause: "relation does not exist".to_string() });
    assert_eq!(action, FetchAction::Release);
    let failed =
        FetchOutcome::Failed { stage: Stage::Query, cause: "relation does not exist".to_string() };
    assert_eq!(state, FetchState::Releasing { outcome: failed.clone() });
    let (state, action) = step(state, FetchEvent::Released);
    assert_eq!(state, FetchState::Done);
    assert_eq!(action, FetchAction::Respond { outcome: failed.clone() });
    assert_eq!(failed.log_line(), "Query execution error: relation does not exist");
    let reply = failed.into_reply();
    assert_eq!(reply.code, 200);
    assert!(reply.body.is_empty());
}

#[test]
fn signal_type_is_bound_and_never_part_of_the_text() {
    let hostile = "temp'; DROP TABLE machine_signals; --";
    let (state, _) = begin(hostile.to_string());
    let (_, action) = step(state, FetchEvent::Acquired);
    assert_eq!(
        action,
        FetchAction::Query { text: QUERY.to_string(), parameter: hostile.to_string() }
    );
}

#[test]
fn row_that_cannot_be_mapped_fails_the_fetch() {
    let rows = vec![row(2, "temp", 22.0, 200), row(1, "temp", 21.5, i64::MAX)];
    let outcome = outcome_from_rows(rows.clone());
    assert_eq!(
        outcome,
        FetchOutcome::Failed {
            stage: Stage::Decode,
            cause: "timestamp outside the range of representable dates".to_string(),
        }
    );
    assert_eq!(
        outcome.log_line(),
        "Row mapping error: timestamp outside the range of representable dates"
    );
    let (served, _, _) = serve("temp", rows);
    assert_eq!(served, outcome);
    let reply = served.into_reply();
    assert_eq!(reply.code, 200);
    assert!(reply.body.is_empty());
}

#[test]
fn stage_prefixes() {
    assert_eq!(Stage::Acquire.prefix(), "Failed to get database connection");
    assert_eq!(Stage::Query.prefix(), "Query execution error");
    assert_eq!(Stage::Decode.prefix(), "Row mapping error");
}

#[test]
fn events_out_of_turn_are_rejected_and_change_nothing() {
    let (state, _) = begin("temp".to_string());
    let waiting = state.clone();
    let (state, action) = step(state, FetchEvent::Released);
    assert_eq!(action, FetchAction::Reject);
    assert_eq!(state, waiting);
    let (state, action) = step(state, FetchEvent::Rows { rows: Vec::new() });
    assert_eq!(action, FetchAction::Reject);
    assert_eq!(state, waiting);

    let (state, _) = step(state, FetchEvent::Acquired);
    let (state, action) = step(state, FetchEvent::Acquired);
    assert_eq!(action, FetchAction::Reject);
    assert_eq!(state, FetchState::Querying);
    let (state, action) = step(state, FetchEvent::AcquireFailed { cause: "late".to_string() });
    assert_eq!(action, FetchAction::Reject);
    assert_eq!(state, FetchState::Querying);

    let (state, _) = step(state, FetchEvent::Rows { rows: Vec::new() });
    let releasing = state.clone();
    let (state, action) = step(state, FetchEvent::QueryFailed { cause: "late".to_string() });
    assert_eq!(action, FetchAction::Reject);
    assert_eq!(state, releasing);

    let (state, _) = step(state, FetchEvent::Released);
    assert_eq!(state, FetchState::Done);
    let (state, action) = step(state, FetchEvent::Acquired);
    assert_eq!(action, FetchAction::Reject);
    assert_eq!(state, FetchState::Done);
}

#[test]
fn connections_taken_are_given_back_on_every_path() {
    let scripts: Vec<Vec<FetchEvent>> = vec![
        vec![FetchEvent::AcquireFailed { cause: "down".to_string() }],
        vec![
            FetchEvent::Acquired,
            FetchEvent::QueryFailed { cause: "broken pipe".to_string() },
            FetchEvent::Released,
        ],
        vec![FetchEvent::Acquired, FetchEvent::Rows { rows: Vec::new() }, FetchEvent::Released],
        vec![
            FetchEvent::Released,
            FetchEvent::Acquired,
            FetchEvent::Acquired,
            FetchEvent::Rows { rows: vec![row(1, "temp", 1.0, 1)] },
            FetchEvent::Rows { rows: Vec::new() },
            FetchEvent::Released,
            FetchEvent::Released,
        ],
    ];
    for script in scripts {
        let (mut state, _) = begin("temp".to_string());
        let mut held: usize = 0;
        let mut taken: usize = 0;
        let mut given_back: usize = 0;
        let mut answers: usize = 0;
        for event in script {
            let granted = state == (FetchState::Acquiring { signal_type: "temp".to_string() })
                && event == FetchEvent::Acquired;
            let back = matches!(state, FetchState::Releasing { .. }) && event == FetchEvent::Released;
            let (next, action) = step(state, event);
            state = next;
            if granted {
                taken += 1;
                held += 1;
            }
            if back {
                given_back += 1;
                held -= 1;
            }
            assert!(held <= 1);
            if let FetchAction::Respond { .. } = action {
                answers += 1;
                assert_eq!(held, 0);
            }
        }
        assert_eq!(state, FetchState::Done);
        assert_eq!(taken, given_back);
        assert_eq!(answers, 1);
    }
}
