use memso::migrations::{
    version_from_row, Action, Event, MigrationError, Migrator, CLEAR_VERSION, DROP_MEMORIES_FTS,
    DROP_MEMORY_VECTORS, MEMORIES_FTS_INDEX, MEMORIES_TABLE, MEMORY_VECTORS_TABLE,
    RAW_CAPTURES_PENDING_INDEX, RECORD_VERSION, RENAME_AGENT_SOURCE, SCHEMA_VERSION_TABLE,
};

/// Runs the migrator, answering every statement with success and the
/// version read with `row`; returns the statements executed with their
/// parameter, and whether the version was read.
fn run_all(row: Option<Option<i64>>) -> (Vec<(&'static str, Option<i64>)>, bool) {
    let mut m = Migrator::new();
    let mut action = m.action();
    let mut done = Vec::new();
    let mut read = false;
    loop {
        action = match action {
            Action::Execute(st) => {
                done.push((st.sql, st.param));
                m.step(Event::Done)
            }
            Action::ReadVersion => {
                read = true;
                m.step(Event::VersionRow(row))
            }
            Action::Finish => return (done, read),
            Action::Abort(e) => panic!("aborted: {}", e.message()),
        };
    }
}

#[test]
fn fresh_database_gets_schema_and_both_upgrades() {
    let (done, read) = run_all(None);
    assert!(read);
    assert_eq!(done.len(), 9 + 3 + 6);
    assert_eq!(done[0], (SCHEMA_VERSION_TABLE, None));
    assert_eq!(done[1], (MEMORIES_TABLE, None));
    assert_eq!(done[8], (RAW_CAPTURES_PENDING_INDEX, None));
    assert_eq!(
        &done[9..],
        &[
            (RENAME_AGENT_SOURCE, None),
            (CLEAR_VERSION, None),
            (RECORD_VERSION, Some(1)),
            (DROP_MEMORY_VECTORS, None),
            (DROP_MEMORIES_FTS, None),
            (MEMORY_VECTORS_TABLE, None),
            (MEMORIES_FTS_INDEX, None),
            (CLEAR_VERSION, None),
            (RECORD_VERSION, Some(2)),
        ]
    );
}

#[test]
fn version_one_gets_only_the_second_upgrade() {
    let (done, _) = run_all(Some(Some(1)));
    assert_eq!(done.len(), 9 + 6);
    assert_eq!(done[9], (DROP_MEMORY_VECTORS, None));
    assert_eq!(done[14], (RECORD_VERSION, Some(2)));
}

#[test]
fn current_database_gets_only_the_schema() {
    let (done, read) = run_all(Some(Some(2)));
    assert!(read);
    assert_eq!(done.len(), 9);
    let (done, _) = run_all(Some(Some(7)));
    assert_eq!(done.len(), 9);
}

#[test]
fn unreadable_version_counts_as_zero() {
    let (done, _) = run_all(Some(None));
    assert_eq!(done.len(), 18);
    assert_eq!(version_from_row(None), 0);
    assert_eq!(version_from_row(Some(None)), 0);
    assert_eq!(version_from_row(Some(Some(5))), 5);
}

#[test]
fn schema_statement_that_already_exists_is_passed_over() {
    let mut m = Migrator::new();
    let a = m.step(Event::Failed("Parse error: table schema_version already exists".to_string()));
    match a {
        Action::Execute(st) => assert_eq!(st.sql, MEMORIES_TABLE),
        other => panic!("unexpected {:?}", other),
    }
}

#[test]
fn other_schema_failure_stops_the_run() {
    let mut m = Migrator::new();
    m.step(Event::Done);
    let a = m.step(Event::Failed("disk I/O error".to_string()));
    match a {
        Action::Abort(e) => {
            assert!(matches!(e, MigrationError::Schema { .. }));
            assert_eq!(
                e.message(),
                format!("Schema error in statement: {}\ndisk I/O error", MEMORIES_TABLE)
            );
        }
        other => panic!("unexpected {:?}", other),
    }
    assert!(!m.accepts(&Event::Done));
}

fn migrator_at_version_read() -> Migrator {
    let mut m = Migrator::new();
    for _ in 0..9 {
        m.step(Event::Done);
    }
    m
}

#[test]
fn failed_version_read_is_a_database_error() {
    let mut m = migrator_at_version_read();
    assert!(m.accepts(&Event::VersionRow(None)));
    assert!(!m.accepts(&Event::Done));
    match m.step(Event::Failed("no such table: schema_version".to_string())) {
        Action::Abort(e) => assert_eq!(e.message(), "no such table: schema_version"),
        other => panic!("unexpected {:?}", other),
    }
}

#[test]
fn failed_rename_is_a_database_error_even_if_it_says_exists() {
    let mut m = migrator_at_version_read();
    m.step(Event::VersionRow(Some(Some(0))));
    match m.step(Event::Failed("constraint failed: row already exists".to_string())) {
        Action::Abort(e) => {
            assert!(matches!(e, MigrationError::Database { .. }));
            assert_eq!(e.message(), "constraint failed: row already exists");
        }
        other => panic!("unexpected {:?}", other),
    }
}

#[test]
fn upgrade_failures_are_reported_as_v2_errors_or_passed_over() {
    let mut m = migrator_at_version_read();
    m.step(Event::VersionRow(Some(Some(1))));
    match m.step(Event::Failed("table memory_vectors already exists".to_string())) {
        Action::Execute(st) => assert_eq!(st.sql, DROP_MEMORIES_FTS),
        other => panic!("unexpected {:?}", other),
    }
    match m.step(Event::Failed("locked".to_string())) {
        Action::Abort(e) => assert_eq!(
            e.message(),
            format!("Migration v2 error in statement: {}\nlocked", DROP_MEMORIES_FTS)
        ),
        other => panic!("unexpected {:?}", other),
    }
}
