//! The backend settings that the storage layer reads, and the checks that
//! turn them into the parameters of a replica connection.
use vstd::prelude::*;

verus! {

/// Where the database lives: a local file only, or a local replica of a
/// remote database.
#[derive(Clone, Copy, Debug, PartialEq, Eq, Structural)]
pub enum BackendMode {
    Local,
    Replica,
}

/// The `[backend]` section of the settings.
#[derive(Debug)]
pub struct BackendConfig {
    pub mode: BackendMode,
    pub remote_url: Option<String>,
    pub auth_token: Option<String>,
}

/// The settings that the storage layer reads.
#[derive(Debug)]
pub struct Config {
    pub backend: BackendConfig,
}

/// The database file's path as the caller holds it: its text when the path
/// is valid UTF-8, and the form in which it is shown to a person.
#[derive(Debug)]
pub struct DbPath {
    pub text: Option<String>,
    pub shown: String,
}

/// What a replica connection is opened with.
#[derive(Debug)]
pub struct ReplicaSettings {
    pub path: String,
    pub url: String,
    pub token: String,
}

/// Why the settings do not describe a replica that can be opened.
#[derive(Clone, Copy, Debug, PartialEq, Eq, Structural)]
pub enum ReplicaSettingsError {
    PathNotUtf8,
    MissingRemoteUrl,
    MissingAuthToken,
}

impl ReplicaSettingsError {
    pub open spec fn text(self) -> Seq<char> {
        match self {
            ReplicaSettingsError::PathNotUtf8 => "replica DB path is not valid UTF-8"@,
            ReplicaSettingsError::MissingRemoteUrl => "replica mode requires backend.remote_url"@,
            ReplicaSettingsError::MissingAuthToken => "replica mode requires backend.auth_token"@,
        }
    }

    /// The message that reports this error.
    pub fn message(&self) -> (s: String)
        ensures
            s@ == self.text(),
    {
        match self {
            ReplicaSettingsError::PathNotUtf8 => String::from_str(
                "replica DB path is not valid UTF-8",
            ),
            ReplicaSettingsError::MissingRemoteUrl => String::from_str(
                "replica mode requires backend.remote_url",
            ),
            ReplicaSettingsError::MissingAuthToken => String::from_str(
                "replica mode requires backend.auth_token",
            ),
        }
    }
}

/// The replica settings that `config` and `path` give, or the first check,
/// in the order path, URL, token, that fails.
pub open spec fn replica_settings_spec(config: Config, path: DbPath) -> Result<
    (Seq<char>, Seq<char>, Seq<char>),
    ReplicaSettingsError,
> {
    match path.text {
        None => Err(ReplicaSettingsError::PathNotUtf8),
        Some(p) => match config.backend.remote_url {
            None => Err(ReplicaSettingsError::MissingRemoteUrl),
            Some(u) => match config.backend.auth_token {
                None => Err(ReplicaSettingsError::MissingAuthToken),
                Some(t) => Ok((p@, u@, t@)),
            },
        },
    }
}

/// Copies an optional text.
pub fn copy_text(s: &Option<String>) -> (r: Option<String>)
    ensures
        r == *s,
{
    match s {
        Some(t) => Some(t.clone()),
        None => None,
    }
}

/// Reads from the settings what a replica connection is opened with.
pub fn replica_settings(config: &Config, path: &DbPath) -> (r: Result<
    ReplicaSettings,
    ReplicaSettingsError,
>)
    ensures
        match (r, replica_settings_spec(*config, *path)) {
            (Ok(s), Ok((p, u, t))) => s.path@ == p && s.url@ == u && s.token@ == t,
            (Err(e), Err(f)) => e == f,
            _ => false,
        },
{
    let path_text = match &path.text {
        Some(p) => p.clone(),
        None => return Err(ReplicaSettingsError::PathNotUtf8),
    };
    let url = match &config.backend.remote_url {
        Some(u) => u.clone(),
        None => return Err(ReplicaSettingsError::MissingRemoteUrl),
    };
    let token = match &config.backend.auth_token {
        Some(t) => t.clone(),
        None => return Err(ReplicaSettingsError::MissingAuthToken),
    };
    Ok(ReplicaSettings { path: path_text, url, token })
}

} // verus!
