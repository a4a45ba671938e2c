use button_consumer::store::{
    fetch_conn, fetch_uuid, insert_log, pool_settings, AuditRecord, Command, Found, Outcome,
    PoolSettings, Session, StoreError, Task, Turn, Waiting,
};

fn text(s: &str) -> String {
    s.to_string()
}

fn record() -> AuditRecord {
    AuditRecord {
        recipient: text("B"),
        outbound_message: text("out"),
        inbound_button_text: text("Sim"),
        flow_tag: text("FGTS"),
    }
}

fn failed(why: &str) -> Outcome {
    Outcome::Failed(text(why))
}

/// Feeds the outcomes in order, and gives the statements that were run and
/// the result, if the session came to one.
fn run(
    begun: (Session, Command),
    outcomes: Vec<Outcome>,
) -> (Vec<Command>, Option<Result<Found, StoreError>>) {
    let (mut session, first) = begun;
    let mut commands = vec![first];
    for outcome in outcomes {
        match session.advance(outcome) {
            Turn::Run(next, command) => {
                session = next;
                commands.push(command);
            }
            Turn::Finished(result) => return (commands, Some(result)),
        }
    }
    (commands, None)
}

#[test]
fn every_pool_has_the_same_settings() {
    assert_eq!(
        pool_settings(),
        PoolSettings {
            keepalives_idle_seconds: 30,
            keepalives_interval_seconds: 10,
            keepalives_retries: 5,
            max_size: 16,
        }
    );
}

#[test]
fn a_session_begins_with_the_statement_timeout() {
    let (session, command) = fetch_uuid("A");
    assert_eq!(command, Command::LimitStatement { seconds: 30 });
    assert_eq!(
        session,
        Session { task: Task::FetchUuid { routing_key: text("A") }, waiting: Waiting::StatementLimit }
    );
    let (session, command) = fetch_conn("A");
    assert_eq!(command, Command::LimitStatement { seconds: 30 });
    assert_eq!(session.task, Task::FetchConn { routing_key: text("A") });
    let (session, command) = insert_log("B", "out", "Sim", "FGTS");
    assert_eq!(command, Command::LimitStatement { seconds: 30 });
    assert_eq!(session.task, Task::InsertLog(record()));
}

#[test]
fn the_lookup_of_a_uuid_runs_three_statements() {
    let outcomes = vec![Outcome::Done, Outcome::Done, Outcome::Row { column: Some(text("U1")) }];
    let (commands, result) = run(fetch_uuid("A"), outcomes);
    assert_eq!(
        commands,
        vec![
            Command::LimitStatement { seconds: 30 },
            Command::LimitIdle { seconds: 30 },
            Command::SelectUuid { routing_key: text("A") },
        ]
    );
    assert_eq!(result, Some(Ok(Found::Value(text("U1")))));
}

#[test]
fn the_lookup_of_a_source_name_runs_three_statements() {
    let outcomes = vec![Outcome::Done, Outcome::Done, Outcome::Row { column: Some(text("S1")) }];
    let (commands, result) = run(fetch_conn("A"), outcomes);
    assert_eq!(commands[2], Command::SelectSourceName { routing_key: text("A") });
    assert_eq!(commands.len(), 3);
    assert_eq!(result, Some(Ok(Found::Value(text("S1")))));
}

#[test]
fn the_insertion_of_a_record_runs_three_statements() {
    let outcomes = vec![Outcome::Done, Outcome::Done, Outcome::Done];
    let (commands, result) = run(insert_log("B", "out", "Sim", "FGTS"), outcomes);
    assert_eq!(commands[1], Command::LimitIdle { seconds: 30 });
    assert_eq!(commands[2], Command::Insert(record()));
    assert_eq!(commands.len(), 3);
    assert_eq!(result, Some(Ok(Found::Recorded)));
}

#[test]
fn a_lookup_without_a_row_finds_nothing() {
    let outcomes = vec![Outcome::Done, Outcome::Done, Outcome::NoRow];
    assert_eq!(run(fetch_uuid("A"), outcomes.clone()).1, Some(Ok(Found::Nothing)));
    assert_eq!(run(fetch_conn("A"), outcomes).1, Some(Ok(Found::Nothing)));
}

#[test]
fn a_row_whose_column_cannot_be_read_finds_nothing() {
    let outcomes = vec![Outcome::Done, Outcome::Done, Outcome::Row { column: None }];
    assert_eq!(run(fetch_uuid("A"), outcomes.clone()).1, Some(Ok(Found::Nothing)));
    assert_eq!(run(fetch_conn("A"), outcomes).1, Some(Ok(Found::Nothing)));
}

#[test]
fn a_failed_statement_ends_the_session_with_its_error() {
    let (commands, result) = run(fetch_uuid("A"), vec![failed("first")]);
    assert_eq!(commands.len(), 1);
    assert_eq!(result, Some(Err(StoreError::Driver(text("first")))));
    let (commands, result) = run(fetch_conn("A"), vec![Outcome::Done, failed("second")]);
    assert_eq!(commands.len(), 2);
    assert_eq!(result, Some(Err(StoreError::Driver(text("second")))));
    let third = vec![Outcome::Done, Outcome::Done, failed("third")];
    let (commands, result) = run(insert_log("B", "out", "Sim", "FGTS"), third.clone());
    assert_eq!(commands.len(), 3);
    assert_eq!(result, Some(Err(StoreError::Driver(text("third")))));
    assert_eq!(run(fetch_uuid("A"), third).1, Some(Err(StoreError::Driver(text("third")))));
}

#[test]
fn an_outcome_that_does_not_fit_the_statement_is_out_of_turn() {
    assert_eq!(run(fetch_uuid("A"), vec![Outcome::NoRow]).1, Some(Err(StoreError::OutOfTurn)));
    assert_eq!(
        run(fetch_uuid("A"), vec![Outcome::Done, Outcome::Row { column: None }]).1,
        Some(Err(StoreError::OutOfTurn))
    );
    assert_eq!(
        run(fetch_uuid("A"), vec![Outcome::Done, Outcome::Done, Outcome::Done]).1,
        Some(Err(StoreError::OutOfTurn))
    );
    let row = Outcome::Row { column: Some(text("x")) };
    assert_eq!(
        run(insert_log("B", "out", "Sim", "FGTS"), vec![Outcome::Done, Outcome::Done, row]).1,
        Some(Err(StoreError::OutOfTurn))
    );
    assert_eq!(
        run(insert_log("B", "out", "Sim", "FGTS"), vec![Outcome::Done, Outcome::Done, Outcome::NoRow]).1,
        Some(Err(StoreError::OutOfTurn))
    );
}

#[test]
fn a_session_waits_while_it_has_no_outcome() {
    let (commands, result) = run(fetch_uuid("A"), vec![Outcome::Done]);
    assert_eq!(commands.len(), 2);
    assert_eq!(result, None);
}
