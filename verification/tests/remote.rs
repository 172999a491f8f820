use memso::config::{BackendConfig, BackendMode, Config, DbPath, ReplicaSettingsError};
use memso::remote::{
    connecting_notice, enable_instructions, insert_statement, not_replica_report, plan_sync,
    prepare_enable, replica_path, select_all_statement, sync_report, CopyAction, CopyEvent,
    CopyFailure, Copier, RemoteError, SyncPlan, PULLING_NOTICE,
};

fn config(mode: BackendMode, url: Option<&str>, token: Option<&str>) -> Config {
    Config {
        backend: BackendConfig {
            mode,
            remote_url: url.map(String::from),
            auth_token: token.map(String::from),
        },
    }
}

fn some(s: &str) -> Option<String> {
    Some(s.to_string())
}

fn utf8_path(p: &str) -> DbPath {
    DbPath { text: Some(p.to_string()), shown: p.to_string() }
}

#[test]
fn enable_switches_to_replica_mode() {
    let mut c = config(BackendMode::Local, None, None);
    let t = prepare_enable(&mut c, some("libsql://a"), some("tok"), false).unwrap();
    assert_eq!(t.url, "libsql://a");
    assert_eq!(t.token, "tok");
    assert_eq!(c.backend.mode, BackendMode::Replica);
    assert_eq!(c.backend.remote_url.as_deref(), Some("libsql://a"));
    assert_eq!(c.backend.auth_token.as_deref(), Some("tok"));
}

#[test]
fn enable_falls_back_to_the_settings() {
    let mut c = config(BackendMode::Local, Some("libsql://stored"), Some("stored-tok"));
    let t = prepare_enable(&mut c, None, None, false).unwrap();
    assert_eq!(t.url, "libsql://stored");
    assert_eq!(t.token, "stored-tok");
}

#[test]
fn enable_needs_url_then_token() {
    let mut c = config(BackendMode::Local, None, None);
    match prepare_enable(&mut c, None, some("t"), false) {
        Err(e) => {
            assert!(matches!(e, RemoteError::RemoteUrlRequired));
            assert_eq!(e.message(), "remote URL required (pass --url or set backend.remote_url in .memso.toml)");
        }
        Ok(_) => panic!("accepted"),
    }
    match prepare_enable(&mut c, some("u"), None, false) {
        Err(e) => {
            assert!(matches!(e, RemoteError::AuthTokenRequired));
            assert_eq!(e.message(), "auth token required (pass --token or set MEMSO_REMOTE_AUTH_TOKEN)");
        }
        Ok(_) => panic!("accepted"),
    }
    assert_eq!(c.backend.mode, BackendMode::Local);
    assert_eq!(c.backend.remote_url, None);
}

#[test]
fn second_enable_needs_force() {
    let mut c = config(BackendMode::Local, None, None);
    prepare_enable(&mut c, some("u1"), some("t1"), false).unwrap();
    match prepare_enable(&mut c, some("u2"), some("t2"), false) {
        Err(e) => {
            assert!(matches!(e, RemoteError::AlreadyReplica));
            assert_eq!(e.message(), "already in replica mode. Use --force to re-initialise the replica.");
        }
        Ok(_) => panic!("accepted"),
    }
    assert_eq!(c.backend.remote_url.as_deref(), Some("u1"));
    let t = prepare_enable(&mut c, some("u2"), some("t2"), true).unwrap();
    assert_eq!(t.url, "u2");
    assert_eq!(c.backend.remote_url.as_deref(), Some("u2"));
    assert_eq!(c.backend.auth_token.as_deref(), Some("t2"));
}

#[test]
fn replica_path_must_be_utf8() {
    assert_eq!(replica_path(&utf8_path("/r.db")).unwrap(), "/r.db");
    match replica_path(&DbPath { text: None, shown: "?".to_string() }) {
        Err(e) => assert_eq!(e.message(), "replica DB path is not valid UTF-8"),
        Ok(_) => panic!("accepted"),
    }
}

#[test]
fn enable_notices() {
    assert_eq!(connecting_notice("libsql://a"), "Connecting to libsql://a ...");
    assert_eq!(PULLING_NOTICE, "Pulling initial data ...");
    assert_eq!(
        enable_instructions("libsql://a"),
        "Remote sync enabled. Update your .memso.toml:\n\n  [backend]\n  mode = \"replica\"\n  remote_url = \"libsql://a\"\n  # auth_token = \"...\" or set MEMSO_REMOTE_AUTH_TOKEN\n"
    );
}

#[test]
fn sync_outside_replica_mode_does_nothing() {
    let c = config(BackendMode::Local, Some("u"), Some("t"));
    assert!(matches!(plan_sync(&c, &utf8_path("/x")), Ok(SyncPlan::NotReplica)));
    assert_eq!(
        not_replica_report(),
        "Not in replica mode - nothing to sync. Set backend.mode = \"replica\" in .memso.toml."
    );
}

#[test]
fn sync_in_replica_mode_uses_the_settings() {
    let c = config(BackendMode::Replica, Some("u"), Some("t"));
    match plan_sync(&c, &utf8_path("/x")) {
        Ok(SyncPlan::Sync(s)) => {
            assert_eq!(s.path, "/x");
            assert_eq!(s.url, "u");
            assert_eq!(s.token, "t");
        }
        other => panic!("unexpected {:?}", other),
    }
    let c = config(BackendMode::Replica, None, Some("t"));
    assert!(matches!(
        plan_sync(&c, &utf8_path("/x")),
        Err(RemoteError::Replica(ReplicaSettingsError::MissingRemoteUrl))
    ));
    let c = config(BackendMode::Replica, Some("u"), None);
    assert!(matches!(
        plan_sync(&c, &utf8_path("/x")),
        Err(RemoteError::Replica(ReplicaSettingsError::MissingAuthToken))
    ));
}

#[test]
fn enable_then_sync_goes_ahead() {
    let mut c = config(BackendMode::Local, None, None);
    prepare_enable(&mut c, some("u"), some("t"), false).unwrap();
    assert!(matches!(plan_sync(&c, &utf8_path("/x")), Ok(SyncPlan::Sync(_))));
}

#[test]
fn sync_reports() {
    assert_eq!(sync_report(true), "Sync complete: local changes pushed, remote changes pulled.");
    assert_eq!(sync_report(false), "Sync complete: local changes pushed, no remote changes.");
}

#[test]
fn remote_error_messages() {
    assert_eq!(RemoteError::OpenReplicaFailed.message(), "Failed to open replica database");
    assert_eq!(RemoteError::InitialPullFailed.message(), "Failed to pull initial data from remote");
    assert_eq!(RemoteError::ConnectReplicaFailed.message(), "Failed to connect to replica");
    assert_eq!(RemoteError::MigrationsFailed.message(), "Failed to run migrations on replica");
    assert_eq!(RemoteError::OpenForSyncFailed.message(), "Failed to open replica database for sync");
    assert_eq!(RemoteError::PushFailed.message(), "Failed to push local changes");
    assert_eq!(RemoteError::PullFailed.message(), "Failed to pull remote changes");
}

#[test]
fn statements_for_copying() {
    assert_eq!(select_all_statement("memories"), "SELECT * FROM memories");
    assert_eq!(insert_statement("memories", 3), "INSERT OR IGNORE INTO memories VALUES (?1, ?2, ?3)");
    assert_eq!(insert_statement("t", 1), "INSERT OR IGNORE INTO t VALUES (?1)");
    assert_eq!(insert_statement("t", 0), "INSERT OR IGNORE INTO t VALUES ()");
    let s = insert_statement("raw_captures", 12);
    assert!(s.ends_with("?9, ?10, ?11, ?12)"));
}

/// Runs a copy whose three tables hold rows of the given column counts.
fn copy(tables: [&[usize]; 3]) -> (Vec<String>, (usize, usize, usize)) {
    let mut c = Copier::new();
    let mut action = c.action();
    let mut statements = Vec::new();
    let mut table = 0;
    let mut row = 0;
    loop {
        action = match action {
            CopyAction::Query(sql) => {
                statements.push(sql);
                row = 0;
                c.step(CopyEvent::Opened)
            }
            CopyAction::NextRow => {
                if row < tables[table].len() {
                    row += 1;
                    c.step(CopyEvent::Row(tables[table][row - 1]))
                } else {
                    table += 1;
                    c.step(CopyEvent::NoMoreRows)
                }
            }
            CopyAction::Insert(sql) => {
                statements.push(sql);
                c.step(CopyEvent::Inserted)
            }
            CopyAction::Finish(m, v, r) => return (statements, (m, v, r)),
            CopyAction::Abort(f) => panic!("aborted: {:?}", f),
        };
    }
}

#[test]
fn copy_all_counts_rows_per_table() {
    let (statements, counts) = copy([&[20, 20], &[2], &[7, 7, 7]]);
    assert_eq!(counts, (2, 1, 3));
    assert_eq!(statements[0], "SELECT * FROM memories");
    assert_eq!(statements[3], "SELECT * FROM memory_vectors");
    assert_eq!(statements[4], "INSERT OR IGNORE INTO memory_vectors VALUES (?1, ?2)");
    assert_eq!(statements[5], "SELECT * FROM raw_captures");
    assert_eq!(statements.len(), 3 + 6);
}

#[test]
fn copy_of_empty_tables_counts_nothing() {
    let (statements, counts) = copy([&[], &[], &[]]);
    assert_eq!(counts, (0, 0, 0));
    assert_eq!(statements.len(), 3);
}

#[test]
fn copy_failures_carry_their_context() {
    let mut c = Copier::new();
    match c.step(CopyEvent::Failed) {
        CopyAction::Abort(f) => {
            assert!(matches!(f, CopyFailure::Read { table: "memories" }));
            assert_eq!(f.context().as_deref(), Some("Failed to read memories"));
        }
        other => panic!("unexpected {:?}", other),
    }
    assert!(!c.accepts(CopyEvent::Opened));

    let mut c = Copier::new();
    c.step(CopyEvent::Opened);
    c.step(CopyEvent::NoMoreRows);
    c.step(CopyEvent::Opened);
    c.step(CopyEvent::Row(2));
    match c.step(CopyEvent::Failed) {
        CopyAction::Abort(f) => assert_eq!(f.context().as_deref(), Some("Failed to insert into memory_vectors")),
        other => panic!("unexpected {:?}", other),
    }

    let mut c = Copier::new();
    c.step(CopyEvent::Opened);
    match c.step(CopyEvent::Failed) {
        CopyAction::Abort(f) => assert!(f.context().is_none()),
        other => panic!("unexpected {:?}", other),
    }
}
