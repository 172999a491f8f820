use memso::config::{BackendConfig, BackendMode, Config, DbPath, ReplicaSettingsError};
use memso::db::{busy_timeout_statement, plan_open, DbError, OpenPlan};

fn config(mode: BackendMode, url: Option<&str>, token: Option<&str>) -> Config {
    Config {
        backend: BackendConfig {
            mode,
            remote_url: url.map(String::from),
            auth_token: token.map(String::from),
        },
    }
}

fn path(text: Option<&str>, shown: &str) -> DbPath {
    DbPath { text: text.map(String::from), shown: shown.to_string() }
}

#[test]
fn local_mode_opens_the_file() {
    let c = config(BackendMode::Local, None, None);
    match plan_open(&c, &path(Some("/data/memso.db"), "/data/memso.db")) {
        Ok(OpenPlan::Local { path }) => assert_eq!(path, "/data/memso.db"),
        other => panic!("unexpected {:?}", other),
    }
}

#[test]
fn local_mode_refuses_a_non_utf8_path() {
    let c = config(BackendMode::Local, Some("libsql://x"), Some("t"));
    match plan_open(&c, &path(None, "/data/m\u{FFFD}.db")) {
        Err(e) => {
            assert!(matches!(e, DbError::LocalPathNotUtf8 { .. }));
            assert_eq!(e.message(), "DB path is not valid UTF-8: /data/m\u{FFFD}.db");
        }
        other => panic!("unexpected {:?}", other),
    }
}

#[test]
fn replica_mode_opens_with_url_and_token() {
    let c = config(BackendMode::Replica, Some("libsql://db.example"), Some("tok"));
    match plan_open(&c, &path(Some("/d/r.db"), "/d/r.db")) {
        Ok(OpenPlan::Replica(s)) => {
            assert_eq!(s.path, "/d/r.db");
            assert_eq!(s.url, "libsql://db.example");
            assert_eq!(s.token, "tok");
        }
        other => panic!("unexpected {:?}", other),
    }
}

#[test]
fn replica_mode_checks_path_then_url_then_token() {
    let c = config(BackendMode::Replica, None, None);
    match plan_open(&c, &path(None, "x")) {
        Err(DbError::Replica(e)) => {
            assert_eq!(e, ReplicaSettingsError::PathNotUtf8);
            assert_eq!(e.message(), "replica DB path is not valid UTF-8");
        }
        other => panic!("unexpected {:?}", other),
    }
    match plan_open(&c, &path(Some("x"), "x")) {
        Err(DbError::Replica(e)) => {
            assert_eq!(e, ReplicaSettingsError::MissingRemoteUrl);
            assert_eq!(e.message(), "replica mode requires backend.remote_url");
        }
        other => panic!("unexpected {:?}", other),
    }
    let c = config(BackendMode::Replica, Some("u"), None);
    match plan_open(&c, &path(Some("x"), "x")) {
        Err(DbError::Replica(e)) => {
            assert_eq!(e, ReplicaSettingsError::MissingAuthToken);
            assert_eq!(e.message(), "replica mode requires backend.auth_token");
        }
        other => panic!("unexpected {:?}", other),
    }
}

#[test]
fn db_error_messages() {
    assert_eq!(DbError::OpenLocalFailed { shown: "/a.db".to_string() }.message(), "Failed to open local DB at /a.db");
    assert_eq!(DbError::ConnectFailed.message(), "Failed to connect to database");
    assert_eq!(DbError::BusyTimeoutFailed.message(), "Failed to set busy_timeout");
    assert_eq!(DbError::OpenReplicaFailed { shown: "/r.db".to_string() }.message(), "Failed to open replica DB at /r.db");
    assert_eq!(DbError::InitialPullFailed.message(), "Failed to pull initial data from remote");
    assert_eq!(DbError::ConnectReplicaFailed.message(), "Failed to connect to replica database");
}

#[test]
fn busy_timeout_is_five_seconds() {
    assert_eq!(busy_timeout_statement(), "PRAGMA busy_timeout=5000");
}
