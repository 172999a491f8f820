//! Deciding how the database is opened: which kind of connection, on which
//! file, with which remote, and how each failure on the way is reported.
use vstd::prelude::*;
use crate::config::{BackendMode, Config, DbPath, ReplicaSettings, ReplicaSettingsError, replica_settings, replica_settings_spec};

verus! {

/// How the database is to be opened.
#[derive(Debug)]
pub enum OpenPlan {
    /// A local file at the given path.
    Local { path: String },
    /// A local replica of a remote database; it is pulled once after opening.
    Replica(ReplicaSettings),
}

/// Why the database could not be opened.
#[derive(Debug)]
pub enum DbError {
    /// The local database path is not valid UTF-8; it carries the path as shown.
    LocalPathNotUtf8 { shown: String },
    /// The settings do not describe a replica that can be opened.
    Replica(ReplicaSettingsError),
    /// The local database at the shown path could not be opened.
    OpenLocalFailed { shown: String },
    /// No connection to the local database could be made.
    ConnectFailed,
    /// The busy timeout could not be set on the local connection.
    BusyTimeoutFailed,
    /// The replica at the shown path could not be opened.
    OpenReplicaFailed { shown: String },
    /// The first pull from the remote failed.
    InitialPullFailed,
    /// No connection to the replica could be made.
    ConnectReplicaFailed,
}

impl DbError {
    pub open spec fn text(self) -> Seq<char> {
        match self {
            DbError::LocalPathNotUtf8 { shown } => "DB path is not valid UTF-8: "@ + shown@,
            DbError::Replica(e) => e.text(),
            DbError::OpenLocalFailed { shown } => "Failed to open local DB at "@ + shown@,
            DbError::ConnectFailed => "Failed to connect to database"@,
            DbError::BusyTimeoutFailed => "Failed to set busy_timeout"@,
            DbError::OpenReplicaFailed { shown } => "Failed to open replica DB at "@ + shown@,
            DbError::InitialPullFailed => "Failed to pull initial data from remote"@,
            DbError::ConnectReplicaFailed => "Failed to connect to replica database"@,
        }
    }

    /// The message that reports this error.
    pub fn message(&self) -> (s: String)
        ensures
            s@ == self.text(),
    {
        match self {
            DbError::LocalPathNotUtf8 { shown } => {
                let mut s = String::from_str("DB path is not valid UTF-8: ");
                s.append(shown.as_str());
                s
            },
            DbError::Replica(e) => e.message(),
            DbError::OpenLocalFailed { shown } => {
                let mut s = String::from_str("Failed to open local DB at ");
                s.append(shown.as_str());
                s
            },
            DbError::ConnectFailed => String::from_str("Failed to connect to database"),
            DbError::BusyTimeoutFailed => String::from_str("Failed to set busy_timeout"),
            DbError::OpenReplicaFailed { shown } => {
                let mut s = String::from_str("Failed to open replica DB at ");
                s.append(shown.as_str());
                s
            },
            DbError::InitialPullFailed => String::from_str(
                "Failed to pull initial data from remote",
            ),
            DbError::ConnectReplicaFailed => String::from_str(
                "Failed to connect to replica database",
            ),
        }
    }
}

/// The statement run on a fresh local connection, so that writers retry
/// instead of failing at once when the database is busy.
pub fn busy_timeout_statement() -> (s: &'static str)
    ensures
        s@ == "PRAGMA busy_timeout=5000"@,
{
    "PRAGMA busy_timeout=5000"
}

/// Decides how the database is opened.
///
/// In local mode the path must be valid UTF-8. In replica mode the path must
/// be valid UTF-8 and the settings must name a remote URL and an auth token,
/// checked in that order.
pub fn plan_open(config: &Config, path: &DbPath) -> (r: Result<OpenPlan, DbError>)
    ensures
        config.backend.mode == BackendMode::Local ==> match r {
            Ok(OpenPlan::Local { path: p }) => path.text == Some(p),
            Err(DbError::LocalPathNotUtf8 { shown }) => path.text is None && shown@ == path.shown@,
            _ => false,
        },
        config.backend.mode == BackendMode::Replica ==> match (
            r,
            replica_settings_spec(*config, *path),
        ) {
            (Ok(OpenPlan::Replica(s)), Ok((p, u, t))) => s.path@ == p && s.url@ == u && s.token@
                == t,
            (Err(DbError::Replica(e)), Err(f)) => e == f,
            _ => false,
        },
{
    match config.backend.mode {
        BackendMode::Local => match &path.text {
            Some(p) => Ok(OpenPlan::Local { path: p.clone() }),
            None => Err(DbError::LocalPathNotUtf8 { shown: path.shown.clone() }),
        },
        BackendMode::Replica => match replica_settings(config, path) {
            Ok(s) => Ok(OpenPlan::Replica(s)),
            Err(e) => Err(DbError::Replica(e)),
        },
    }
}

} // verus!
