//! Remote synchronisation: switching the settings to replica mode, deciding
//! whether a sync has anything to do, and copying every table of one
//! database into another, one row at a time.
use vstd::prelude::*;
use crate::config::{
    BackendConfig,
    BackendMode,
    Config,
    copy_text,
    DbPath,
    ReplicaSettings,
    ReplicaSettingsError,
    replica_settings,
    replica_settings_spec,
};
use crate::text::{
    count_char,
    decimal,
    join,
    lemma_count_char_absent,
    lemma_count_char_concat,
    lemma_decimal_digits_only,
    push_decimal,
};

verus! {

/// Why switching to replica mode, or a sync, could not go on.
#[derive(Debug)]
pub enum RemoteError {
    /// Neither the caller nor the settings give a remote URL.
    RemoteUrlRequired,
    /// Neither the caller nor the settings give an auth token.
    AuthTokenRequired,
    /// The settings are in replica mode already and re-initialising was not forced.
    AlreadyReplica,
    /// The settings do not describe a replica that can be opened.
    Replica(ReplicaSettingsError),
    /// The replica database could not be opened.
    OpenReplicaFailed,
    /// The first pull from the remote failed.
    InitialPullFailed,
    /// No connection to the replica could be made.
    ConnectReplicaFailed,
    /// The migrations failed on the replica.
    MigrationsFailed,
    /// The replica could not be opened for a sync.
    OpenForSyncFailed,
    /// The local changes could not be pushed.
    PushFailed,
    /// The remote changes could not be pulled.
    PullFailed,
}

impl RemoteError {
    pub open spec fn text(self) -> Seq<char> {
        match self {
            RemoteError::RemoteUrlRequired =>
                "remote URL required (pass --url or set backend.remote_url in .memso.toml)"@,
            RemoteError::AuthTokenRequired =>
                "auth token required (pass --token or set MEMSO_REMOTE_AUTH_TOKEN)"@,
            RemoteError::AlreadyReplica =>
                "already in replica mode. Use --force to re-initialise the replica."@,
            RemoteError::Replica(e) => e.text(),
            RemoteError::OpenReplicaFailed => "Failed to open replica database"@,
            RemoteError::InitialPullFailed => "Failed to pull initial data from remote"@,
            RemoteError::ConnectReplicaFailed => "Failed to connect to replica"@,
            RemoteError::MigrationsFailed => "Failed to run migrations on replica"@,
            RemoteError::OpenForSyncFailed => "Failed to open replica database for sync"@,
            RemoteError::PushFailed => "Failed to push local changes"@,
            RemoteError::PullFailed => "Failed to pull remote changes"@,
        }
    }

    /// The message that reports this error.
    pub fn message(&self) -> (s: String)
        ensures
            s@ == self.text(),
    {
        match self {
            RemoteError::RemoteUrlRequired => String::from_str(
                "remote URL required (pass --url or set backend.remote_url in .memso.toml)",
            ),
            RemoteError::AuthTokenRequired => String::from_str(
                "auth token required (pass --token or set MEMSO_REMOTE_AUTH_TOKEN)",
            ),
            RemoteError::AlreadyReplica => String::from_str(
                "already in replica mode. Use --force to re-initialise the replica.",
            ),
            RemoteError::Replica(e) => e.message(),
            RemoteError::OpenReplicaFailed => String::from_str("Failed to open replica database"),
            RemoteError::InitialPullFailed => String::from_str(
                "Failed to pull initial data from remote",
            ),
            RemoteError::ConnectReplicaFailed => String::from_str("Failed to connect to replica"),
            RemoteError::MigrationsFailed => String::from_str(
                "Failed to run migrations on replica",
            ),
            RemoteError::OpenForSyncFailed => String::from_str(
                "Failed to open replica database for sync",
            ),
            RemoteError::PushFailed => String::from_str("Failed to push local changes"),
            RemoteError::PullFailed => String::from_str("Failed to pull remote changes"),
        }
    }
}

/// The remote that replica mode is switched to.
#[derive(Debug)]
pub struct ReplicaTarget {
    pub url: String,
    pub token: String,
}

/// The value given by the caller, or else the one in the settings.
pub open spec fn given_or(given: Option<String>, stored: Option<String>) -> Option<String> {
    match given {
        Some(v) => Some(v),
        None => stored,
    }
}

/// The backend settings after switching to replica mode, or why the switch
/// is refused: first a missing URL, then a missing token, then replica mode
/// already in force without `force`.
pub open spec fn enabled_backend(
    backend: BackendConfig,
    url: Option<String>,
    token: Option<String>,
    force: bool,
) -> Result<BackendConfig, RemoteError> {
    match given_or(url, backend.remote_url) {
        None => Err(RemoteError::RemoteUrlRequired),
        Some(u) => match given_or(token, backend.auth_token) {
            None => Err(RemoteError::AuthTokenRequired),
            Some(t) => if backend.mode == BackendMode::Replica && !force {
                Err(RemoteError::AlreadyReplica)
            } else {
                Ok(BackendConfig { mode: BackendMode::Replica, remote_url: Some(u), auth_token: Some(t) })
            },
        },
    }
}

/// Switches the settings to replica mode with the given remote, the URL and
/// token falling back to those already in the settings.
///
/// On success the settings hold replica mode with the chosen URL and token,
/// which are also returned; on failure they are left as they were.
pub fn prepare_enable(
    config: &mut Config,
    url: Option<String>,
    token: Option<String>,
    force: bool,
) -> (r: Result<ReplicaTarget, RemoteError>)
    ensures
        match (r, enabled_backend(old(config).backend, url, token, force)) {
            (Ok(target), Ok(b)) => final(config).backend == b && b.remote_url == Some(target.url)
                && b.auth_token == Some(target.token),
            (Err(e), Err(f)) => e == f && *final(config) == *old(config),
            _ => false,
        },
        r is Ok ==> (url matches Some(u) ==> r->Ok_0.url == u
            && final(config).backend.remote_url == Some(u)),
        r is Ok ==> (token matches Some(t) ==> r->Ok_0.token == t
            && final(config).backend.auth_token == Some(t)),
{
    let u = match url {
        Some(u) => u,
        None => match copy_text(&config.backend.remote_url) {
            Some(u) => u,
            None => return Err(RemoteError::RemoteUrlRequired),
        },
    };
    let t = match token {
        Some(t) => t,
        None => match copy_text(&config.backend.auth_token) {
            Some(t) => t,
            None => return Err(RemoteError::AuthTokenRequired),
        },
    };
    if config.backend.mode == BackendMode::Replica && !force {
        return Err(RemoteError::AlreadyReplica);
    }
    config.backend = BackendConfig {
        mode: BackendMode::Replica,
        remote_url: Some(u.clone()),
        auth_token: Some(t.clone()),
    };
    Ok(ReplicaTarget { url: u, token: t })
}

/// The path of the replica file, which must be valid UTF-8.
pub fn replica_path(path: &DbPath) -> (r: Result<String, RemoteError>)
    ensures
        match r {
            Ok(p) => path.text == Some(p),
            Err(e) => path.text is None && e == RemoteError::Replica(ReplicaSettingsError::PathNotUtf8),
        },
{
    match &path.text {
        Some(p) => Ok(p.clone()),
        None => Err(RemoteError::Replica(ReplicaSettingsError::PathNotUtf8)),
    }
}

/// The notice shown while connecting to the remote at `url`.
pub fn connecting_notice(url: &str) -> (s: String)
    ensures
        s@ == "Connecting to "@ + url@ + " ..."@,
{
    let mut s = String::from_str("Connecting to ");
    s.append(url);
    s.append(" ...");
    s
}

/// The notice shown while the first pull runs.
pub const PULLING_NOTICE: &'static str = "Pulling initial data ...";

/// What the user is told to put in the settings file once replica mode is
/// enabled with the remote at `url`; every line ends with a newline.
pub open spec fn enable_instructions_text(url: Seq<char>) -> Seq<char> {
    "Remote sync enabled. Update your .memso.toml:\n\n"@ + "  [backend]\n"@
        + "  mode = \"replica\"\n"@ + "  remote_url = \""@ + url + "\"\n"@
        + "  # auth_token = \"...\" or set MEMSO_REMOTE_AUTH_TOKEN\n"@
}

/// The lines that tell the user how to record replica mode in the settings.
pub fn enable_instructions(url: &str) -> (s: String)
    ensures
        s@ == enable_instructions_text(url@),
{
    let mut s = String::from_str("Remote sync enabled. Update your .memso.toml:\n\n");
    s.append("  [backend]\n");
    s.append("  mode = \"replica\"\n");
    s.append("  remote_url = \"");
    s.append(url);
    s.append("\"\n");
    s.append("  # auth_token = \"...\" or set MEMSO_REMOTE_AUTH_TOKEN\n");
    s
}

/// What a sync does.
#[derive(Debug)]
pub enum SyncPlan {
    /// Nothing: the settings are not in replica mode.
    NotReplica,
    /// Push, then pull, through the replica opened with these settings.
    Sync(ReplicaSettings),
}

/// Decides what a sync does: nothing outside replica mode; in replica mode
/// it needs a UTF-8 path, a remote URL and an auth token, checked in that
/// order.
pub fn plan_sync(config: &Config, path: &DbPath) -> (r: Result<SyncPlan, RemoteError>)
    ensures
        config.backend.mode == BackendMode::Local ==> r matches Ok(SyncPlan::NotReplica),
        config.backend.mode == BackendMode::Replica ==> match (
            r,
            replica_settings_spec(*config, *path),
        ) {
            (Ok(SyncPlan::Sync(s)), Ok((p, u, t))) => s.path@ == p && s.url@ == u && s.token@
                == t,
            (Err(RemoteError::Replica(e)), Err(f)) => e == f,
            _ => false,
        },
{
    if config.backend.mode != BackendMode::Replica {
        return Ok(SyncPlan::NotReplica);
    }
    match replica_settings(config, path) {
        Ok(s) => Ok(SyncPlan::Sync(s)),
        Err(e) => Err(RemoteError::Replica(e)),
    }
}

/// The report of a sync outside replica mode.
pub fn not_replica_report() -> (s: String)
    ensures
        s@ == "Not in replica mode - nothing to sync. Set backend.mode = \"replica\" in .memso.toml."@,
{
    String::from_str(
        "Not in replica mode - nothing to sync. Set backend.mode = \"replica\" in .memso.toml.",
    )
}

/// The report of a completed sync, by whether the pull brought changes.
pub fn sync_report(had_changes: bool) -> (s: String)
    ensures
        had_changes ==> s@ == "Sync complete: local changes pushed, remote changes pulled."@,
        !had_changes ==> s@ == "Sync complete: local changes pushed, no remote changes."@,
{
    if had_changes {
        String::from_str("Sync complete: local changes pushed, remote changes pulled.")
    } else {
        String::from_str("Sync complete: local changes pushed, no remote changes.")
    }
}

/// A URL or token that the caller gives is the one switched to, whatever the
/// settings hold and whatever `force` is; one that the caller leaves out is
/// taken from the settings.
pub proof fn law_given_remote_wins(
    backend: BackendConfig,
    url: Option<String>,
    token: Option<String>,
    force: bool,
)
    requires
        enabled_backend(backend, url, token, force) is Ok,
    ensures
        url matches Some(u) ==> enabled_backend(backend, url, token, force)->Ok_0.remote_url
            == Some(u),
        token matches Some(t) ==> enabled_backend(backend, url, token, force)->Ok_0.auth_token
            == Some(t),
        url is None ==> enabled_backend(backend, url, token, force)->Ok_0.remote_url
            == backend.remote_url,
        token is None ==> enabled_backend(backend, url, token, force)->Ok_0.auth_token
            == backend.auth_token,
{
}

/// Switching to replica mode twice without `force` is refused the second
/// time, whatever URL and token the second call gives.
pub proof fn law_second_enable_needs_force(
    backend: BackendConfig,
    url: Option<String>,
    token: Option<String>,
    force: bool,
    url2: Option<String>,
    token2: Option<String>,
)
    requires
        enabled_backend(backend, url, token, force) is Ok,
    ensures
        enabled_backend(enabled_backend(backend, url, token, force)->Ok_0, url2, token2, false)
            == Err::<BackendConfig, RemoteError>(RemoteError::AlreadyReplica),
{
}

/// Switching to replica mode with a forced re-initialisation keeps the
/// remote that the call names.
pub proof fn law_forced_enable_takes_new_remote(
    backend: BackendConfig,
    url: String,
    token: String,
)
    ensures
        enabled_backend(backend, Some(url), Some(token), true) == Ok::<BackendConfig, RemoteError>(
            BackendConfig { mode: BackendMode::Replica, remote_url: Some(url), auth_token: Some(token) },
        ),
{
}

/// After replica mode is switched on, a sync with a UTF-8 path goes ahead
/// against the remote that was switched to.
pub proof fn law_sync_after_enable_uses_enabled_remote(
    backend: BackendConfig,
    url: Option<String>,
    token: Option<String>,
    force: bool,
    path: DbPath,
)
    requires
        enabled_backend(backend, url, token, force) is Ok,
        path.text is Some,
    ensures
        ({
            let b = enabled_backend(backend, url, token, force)->Ok_0;
            &&& b.mode == BackendMode::Replica
            &&& replica_settings_spec(Config { backend: b }, path) == Ok::<
                (Seq<char>, Seq<char>, Seq<char>),
                ReplicaSettingsError,
            >((path.text->0@, b.remote_url->0@, b.auth_token->0@))
        }),
{
}

// ---------------------------------------------------------------------------
// Copying every table from one database into another.
/// The table of memories.
pub const MEMORIES: &'static str = "memories";

/// The table of memory embeddings.
pub const MEMORY_VECTORS: &'static str = "memory_vectors";

/// The table of raw captures.
pub const RAW_CAPTURES: &'static str = "raw_captures";

/// The number of tables that are copied.
pub const COPIED_TABLE_COUNT: usize = 3;

/// The `i`-th copied table, in the order of copying.
pub open spec fn copied_table(i: nat) -> &'static str {
    if i == 0 {
        MEMORIES
    } else if i == 1 {
        MEMORY_VECTORS
    } else {
        RAW_CAPTURES
    }
}

/// `?1, ?2, ..., ?n`.
pub open spec fn placeholders(n: nat) -> Seq<char> {
    join(Seq::new(n, |i: int| "?"@ + decimal((i + 1) as nat)), ", "@)
}

/// The statement that reads every row of `table`.
pub open spec fn select_all_sql(table: Seq<char>) -> Seq<char> {
    "SELECT * FROM "@ + table
}

/// The statement that inserts a row of `columns` values into `table`,
/// keeping the row already there when a key collides.
pub open spec fn insert_sql(table: Seq<char>, columns: nat) -> Seq<char> {
    "INSERT OR IGNORE INTO "@ + table + " VALUES ("@ + placeholders(columns) + ")"@
}

/// The statement that reads every row of `table`.
pub fn select_all_statement(table: &str) -> (s: String)
    ensures
        s@ == select_all_sql(table@),
{
    let mut s = String::from_str("SELECT * FROM ");
    s.append(table);
    s
}

/// Appends `?1, ?2, ..., ?n` to `out`.
pub fn push_placeholders(out: &mut String, n: usize)
    ensures
        final(out)@ == old(out)@ + placeholders(n as nat),
{
    let ghost start = out@;
    let ghost item = |i: int| "?"@ + decimal((i + 1) as nat);
    let mut i: usize = 0;
    while i < n
        invariant
            i <= n,
            out@ == start + join(Seq::new(i as nat, item), ", "@),
            item == (|i: int| "?"@ + decimal((i + 1) as nat)),
        decreases n - i,
    {
        if i > 0 {
            out.append(", ");
        }
        out.append("?");
        push_decimal(out, i + 1);
        proof {
            let next = Seq::new((i + 1) as nat, item);
            assert(next.drop_last() =~= Seq::new(i as nat, item));
            assert(next.last() == item(i as int));
            if i == 0 {
                assert(Seq::new(0, item) =~= Seq::<Seq<char>>::empty());
                assert(join(next, ", "@) == next[0]);
                assert(out@ =~= start + join(next, ", "@));
            } else {
                assert(join(next, ", "@) == join(Seq::new(i as nat, item), ", "@) + ", "@ + item(
                    i as int,
                ));
                assert(out@ =~= start + join(next, ", "@));
            }
        }
        i = i + 1;
    }
}

/// The statement that inserts a row of `columns` values into `table`.
pub fn insert_statement(table: &str, columns: usize) -> (s: String)
    ensures
        s@ == insert_sql(table@, columns as nat),
{
    let mut s = String::from_str("INSERT OR IGNORE INTO ");
    s.append(table);
    s.append(" VALUES (");
    push_placeholders(&mut s, columns);
    s.append(")");
    s
}

/// What a copy of one table is doing.
#[derive(Clone, Copy, Debug, PartialEq, Eq, Structural)]
pub enum CopyPhase {
    /// Reading the table is being opened.
    Query,
    /// The next row is being read.
    Read,
    /// The row just read, of this many columns, is being inserted.
    Insert(usize),
}

/// What the caller reports after performing a copy action.
#[derive(Clone, Copy, Debug, PartialEq, Eq, Structural)]
pub enum CopyEvent {
    /// Reading the table has started.
    Opened,
    /// A row of this many columns was read.
    Row(usize),
    /// The table has no more rows.
    NoMoreRows,
    /// The row was inserted (or ignored as already present).
    Inserted,
    /// The action failed; the caller keeps the error.
    Failed,
}

/// Why a copy stopped.
#[derive(Clone, Copy, Debug)]
pub enum CopyFailure {
    /// Reading the table could not start.
    Read { table: &'static str },
    /// Reading the next row failed.
    NextRow,
    /// Inserting a row into the table failed.
    Insert { table: &'static str },
}

impl CopyFailure {
    /// The context that the caller adds to the error it keeps, if any.
    pub open spec fn context_text(self) -> Option<Seq<char>> {
        match self {
            CopyFailure::Read { table } => Some("Failed to read "@ + table@),
            CopyFailure::NextRow => None,
            CopyFailure::Insert { table } => Some("Failed to insert into "@ + table@),
        }
    }

    /// The context that the caller adds to the error it keeps, if any.
    pub fn context(&self) -> (s: Option<String>)
        ensures
            match (s, self.context_text()) {
                (Some(a), Some(b)) => a@ == b,
                (None, None) => true,
                _ => false,
            },
    {
        match self {
            CopyFailure::Read { table } => {
                let mut s = String::from_str("Failed to read ");
                s.append(table);
                Some(s)
            },
            CopyFailure::NextRow => None,
            CopyFailure::Insert { table } => {
                let mut s = String::from_str("Failed to insert into ");
                s.append(table);
                Some(s)
            },
        }
    }
}

/// What the caller does next in a copy.
#[derive(Debug)]
pub enum CopyAction {
    /// Start reading every row of the source table with this statement.
    Query(String),
    /// Read the next row of the source table.
    NextRow,
    /// Insert the row just read into the destination with this statement.
    Insert(String),
    /// The copy is complete; the numbers of rows copied from memories,
    /// memory vectors and raw captures.
    Finish(usize, usize, usize),
    /// The copy failed.
    Abort(CopyFailure),
}

/// Where a copy stands: the table being copied (3 once all are done), what
/// is being done to it, the rows copied from each table, and whether it has
/// stopped on a failure.
pub struct CopyState {
    pub table: nat,
    pub phase: CopyPhase,
    pub copied: Seq<nat>,
    pub halted: bool,
}

/// The state before the first action of a copy.
pub open spec fn copy_start() -> CopyState {
    CopyState { table: 0, phase: CopyPhase::Query, copied: seq![0, 0, 0], halted: false }
}

impl CopyState {
    /// The events that can answer the current action.
    pub open spec fn accepts(self, e: CopyEvent) -> bool {
        &&& !self.halted
        &&& self.table < COPIED_TABLE_COUNT
        &&& match self.phase {
            CopyPhase::Query => e is Opened || e is Failed,
            CopyPhase::Read => e is Row || e is NoMoreRows || e is Failed,
            CopyPhase::Insert(_) => e is Failed || (e is Inserted && self.copied[self.table as int]
                < usize::MAX),
        }
    }

    /// The state after `e`.
    pub open spec fn next(self, e: CopyEvent) -> CopyState {
        match (self.phase, e) {
            (_, CopyEvent::Failed) => CopyState { halted: true, ..self },
            (CopyPhase::Query, CopyEvent::Opened) => CopyState { phase: CopyPhase::Read, ..self },
            (CopyPhase::Read, CopyEvent::Row(n)) => CopyState { phase: CopyPhase::Insert(n), ..self },
            (CopyPhase::Read, CopyEvent::NoMoreRows) => CopyState {
                table: self.table + 1,
                phase: CopyPhase::Query,
                ..self
            },
            (CopyPhase::Insert(_), CopyEvent::Inserted) => CopyState {
                phase: CopyPhase::Read,
                copied: self.copied.update(
                    self.table as int,
                    self.copied[self.table as int] + 1,
                ),
                ..self
            },
            _ => self,
        }
    }

    /// `a` is what the caller does in this state.
    pub open spec fn prompts(self, a: CopyAction) -> bool {
        if self.table >= COPIED_TABLE_COUNT {
            a matches CopyAction::Finish(m, v, c) && m == self.copied[0] && v == self.copied[1]
                && c == self.copied[2]
        } else {
            match self.phase {
                CopyPhase::Query => a matches CopyAction::Query(s) && s@ == select_all_sql(
                    copied_table(self.table)@,
                ),
                CopyPhase::Read => a is NextRow,
                CopyPhase::Insert(n) => a matches CopyAction::Insert(s) && s@ == insert_sql(
                    copied_table(self.table)@,
                    n as nat,
                ),
            }
        }
    }

    /// `a` reports the failure of the current action.
    pub open spec fn reports(self, a: CopyAction) -> bool {
        match self.phase {
            CopyPhase::Query => a == CopyAction::Abort(
                CopyFailure::Read { table: copied_table(self.table) },
            ),
            CopyPhase::Read => a == CopyAction::Abort(CopyFailure::NextRow),
            CopyPhase::Insert(_) => a == CopyAction::Abort(
                CopyFailure::Insert { table: copied_table(self.table) },
            ),
        }
    }
}

/// Drives a copy of the memories, memory vectors and raw captures tables, in
/// that order, from one database into another.
pub struct Copier {
    table: usize,
    phase: CopyPhase,
    memories: usize,
    vectors: usize,
    captures: usize,
    halted: bool,
}

impl View for Copier {
    type V = CopyState;

    closed spec fn view(&self) -> CopyState {
        CopyState {
            table: self.table as nat,
            phase: self.phase,
            copied: seq![self.memories as nat, self.vectors as nat, self.captures as nat],
            halted: self.halted,
        }
    }
}

fn copied_table_at(i: usize) -> (s: &'static str)
    ensures
        s == copied_table(i as nat),
{
    if i == 0 {
        MEMORIES
    } else if i == 1 {
        MEMORY_VECTORS
    } else {
        RAW_CAPTURES
    }
}

impl Copier {
    #[verifier::type_invariant]
    spec fn well_formed(self) -> bool {
        &&& self.table <= COPIED_TABLE_COUNT
        &&& self.table == COPIED_TABLE_COUNT ==> self.phase == CopyPhase::Query
    }

    /// A copy that has taken no action yet.
    pub fn new() -> (c: Copier)
        ensures
            c@ == copy_start(),
    {
        let c = Copier {
            table: 0,
            phase: CopyPhase::Query,
            memories: 0,
            vectors: 0,
            captures: 0,
            halted: false,
        };
        assert(c@.copied =~= seq![0nat, 0nat, 0nat]);
        c
    }

    /// What the caller does in the current state.
    pub fn action(&self) -> (a: CopyAction)
        ensures
            self@.prompts(a),
    {
        proof {
            use_type_invariant(self);
        }
        if self.table >= COPIED_TABLE_COUNT {
            return CopyAction::Finish(self.memories, self.vectors, self.captures);
        }
        let table = copied_table_at(self.table);
        match self.phase {
            CopyPhase::Query => CopyAction::Query(select_all_statement(table)),
            CopyPhase::Read => CopyAction::NextRow,
            CopyPhase::Insert(n) => CopyAction::Insert(insert_statement(table, n)),
        }
    }

    /// Whether `e` can answer the current action.
    pub fn accepts(&self, e: CopyEvent) -> (b: bool)
        ensures
            b == self@.accepts(e),
    {
        if self.halted || self.table >= COPIED_TABLE_COUNT {
            return false;
        }
        match self.phase {
            CopyPhase::Query => e == CopyEvent::Opened || e == CopyEvent::Failed,
            CopyPhase::Read => match e {
                CopyEvent::Row(_) => true,
                CopyEvent::NoMoreRows => true,
                CopyEvent::Failed => true,
                _ => false,
            },
            CopyPhase::Insert(_) => match e {
                CopyEvent::Failed => true,
                CopyEvent::Inserted => {
                    let count = if self.table == 0 {
                        self.memories
                    } else if self.table == 1 {
                        self.vectors
                    } else {
                        self.captures
                    };
                    count < usize::MAX
                },
                _ => false,
            },
        }
    }

    /// Takes the caller's report on the current action and says what to do
    /// next.
    pub fn step(&mut self, e: CopyEvent) -> (a: CopyAction)
        requires
            old(self)@.accepts(e),
        ensures
            final(self)@ == old(self)@.next(e),
            e != CopyEvent::Failed ==> final(self)@.prompts(a),
            e == CopyEvent::Failed ==> old(self)@.reports(a),
    {
        proof {
            use_type_invariant(&*self);
        }
        let ghost before = self@;
        match e {
            CopyEvent::Failed => {
                let failure = match self.phase {
                    CopyPhase::Query => CopyFailure::Read { table: copied_table_at(self.table) },
                    CopyPhase::Read => CopyFailure::NextRow,
                    CopyPhase::Insert(_) => CopyFailure::Insert {
                        table: copied_table_at(self.table),
                    },
                };
                self.halted = true;
                assert(self@ =~= before.next(e));
                return CopyAction::Abort(failure);
            },
            CopyEvent::Opened => {
                self.phase = CopyPhase::Read;
            },
            CopyEvent::Row(n) => {
                self.phase = CopyPhase::Insert(n);
            },
            CopyEvent::NoMoreRows => {
                *self = Copier {
                    table: self.table + 1,
                    phase: CopyPhase::Query,
                    memories: self.memories,
                    vectors: self.vectors,
                    captures: self.captures,
                    halted: false,
                };
            },
            CopyEvent::Inserted => {
                if self.table == 0 {
                    self.memories = self.memories + 1;
                } else if self.table == 1 {
                    self.vectors = self.vectors + 1;
                } else {
                    self.captures = self.captures + 1;
                }
                self.phase = CopyPhase::Read;
            },
        }
        assert(self@.copied =~= before.next(e).copied);
        self.action()
    }
}

/// The events of a table whose rows, of `columns[i]` columns each, are all
/// read and inserted, followed by the end of the table.
pub open spec fn table_events(columns: Seq<usize>) -> Seq<CopyEvent>
    decreases columns.len(),
{
    if columns.len() == 0 {
        seq![CopyEvent::NoMoreRows]
    } else {
        seq![CopyEvent::Row(columns[0]), CopyEvent::Inserted] + table_events(columns.drop_first())
    }
}

/// The events of a copy in which every action succeeds, the three tables
/// holding rows of the given column counts.
pub open spec fn copy_events(
    memories: Seq<usize>,
    vectors: Seq<usize>,
    captures: Seq<usize>,
) -> Seq<CopyEvent> {
    seq![CopyEvent::Opened] + table_events(memories) + seq![CopyEvent::Opened] + table_events(
        vectors,
    ) + seq![CopyEvent::Opened] + table_events(captures)
}

/// The state after the events, taken in order.
pub open spec fn feed(s: CopyState, events: Seq<CopyEvent>) -> CopyState
    decreases events.len(),
{
    if events.len() == 0 {
        s
    } else {
        feed(s.next(events[0]), events.drop_first())
    }
}

/// Every event is accepted in the state it meets.
pub open spec fn accepted_run(s: CopyState, events: Seq<CopyEvent>) -> bool
    decreases events.len(),
{
    events.len() == 0 || (s.accepts(events[0]) && accepted_run(s.next(events[0]), events.drop_first()))
}

proof fn lemma_feed_concat(s: CopyState, a: Seq<CopyEvent>, b: Seq<CopyEvent>)
    ensures
        feed(s, a + b) == feed(feed(s, a), b),
        accepted_run(s, a + b) == (accepted_run(s, a) && accepted_run(feed(s, a), b)),
    decreases a.len(),
{
    if a.len() == 0 {
        assert(a + b =~= b);
    } else {
        assert((a + b).drop_first() =~= a.drop_first() + b);
        assert((a + b)[0] == a[0]);
        lemma_feed_concat(s.next(a[0]), a.drop_first(), b);
    }
}

proof fn lemma_table_copy(s: CopyState, columns: Seq<usize>)
    requires
        !s.halted,
        s.table < COPIED_TABLE_COUNT,
        s.phase == CopyPhase::Read,
        s.copied.len() == COPIED_TABLE_COUNT,
        s.copied[s.table as int] + columns.len() <= usize::MAX,
    ensures
        feed(s, table_events(columns)) == (CopyState {
            table: s.table + 1,
            phase: CopyPhase::Query,
            copied: s.copied.update(s.table as int, s.copied[s.table as int] + columns.len()),
            halted: false,
        }),
        accepted_run(s, table_events(columns)),
    decreases columns.len(),
{
    if columns.len() == 0 {
        let e = table_events(columns);
        assert(e.drop_first() =~= Seq::<CopyEvent>::empty());
        assert(s.copied.update(s.table as int, s.copied[s.table as int] + 0) =~= s.copied);
        reveal_with_fuel(feed, 2);
        reveal_with_fuel(accepted_run, 2);
    } else {
        let pair = seq![CopyEvent::Row(columns[0]), CopyEvent::Inserted];
        let rest = table_events(columns.drop_first());
        assert(table_events(columns) == pair + rest);
        lemma_feed_concat(s, pair, rest);
        let s1 = s.next(CopyEvent::Row(columns[0]));
        let s2 = s1.next(CopyEvent::Inserted);
        assert(pair.drop_first() =~= seq![CopyEvent::Inserted]);
        assert(seq![CopyEvent::Inserted].drop_first() =~= Seq::<CopyEvent>::empty());
        reveal_with_fuel(feed, 3);
        reveal_with_fuel(accepted_run, 3);
        assert(feed(s, pair) == s2);
        assert(accepted_run(s, pair));
        lemma_table_copy(s2, columns.drop_first());
        assert(s2.copied.update(s.table as int, s2.copied[s.table as int] + columns.drop_first().len())
            =~= s.copied.update(s.table as int, s.copied[s.table as int] + columns.len()));
    }
}

proof fn lemma_open_then_table(s: CopyState, columns: Seq<usize>)
    requires
        !s.halted,
        s.table < COPIED_TABLE_COUNT,
        s.phase == CopyPhase::Query,
        s.copied.len() == COPIED_TABLE_COUNT,
        s.copied[s.table as int] + columns.len() <= usize::MAX,
    ensures
        feed(s, seq![CopyEvent::Opened] + table_events(columns)) == (CopyState {
            table: s.table + 1,
            phase: CopyPhase::Query,
            copied: s.copied.update(s.table as int, s.copied[s.table as int] + columns.len()),
            halted: false,
        }),
        accepted_run(s, seq![CopyEvent::Opened] + table_events(columns)),
{
    let o = seq![CopyEvent::Opened];
    lemma_feed_concat(s, o, table_events(columns));
    assert(o.drop_first() =~= Seq::<CopyEvent>::empty());
    reveal_with_fuel(feed, 2);
    reveal_with_fuel(accepted_run, 2);
    assert(feed(s, o) == s.next(CopyEvent::Opened));
    assert(accepted_run(s, o));
    lemma_table_copy(s.next(CopyEvent::Opened), columns);
}

/// A copy in which every action succeeds is accepted step by step and ends
/// by reporting, for each table, the number of rows read from it and
/// inserted.
pub proof fn law_copy_reports_rows_per_table(
    memories: Seq<usize>,
    vectors: Seq<usize>,
    captures: Seq<usize>,
)
    requires
        memories.len() <= usize::MAX,
        vectors.len() <= usize::MAX,
        captures.len() <= usize::MAX,
    ensures
        accepted_run(copy_start(), copy_events(memories, vectors, captures)),
        feed(copy_start(), copy_events(memories, vectors, captures)) == (CopyState {
            table: COPIED_TABLE_COUNT as nat,
            phase: CopyPhase::Query,
            copied: seq![memories.len(), vectors.len(), captures.len()],
            halted: false,
        }),
        feed(copy_start(), copy_events(memories, vectors, captures)).prompts(
            CopyAction::Finish(
                memories.len() as usize,
                vectors.len() as usize,
                captures.len() as usize,
            ),
        ),
{
    let o = seq![CopyEvent::Opened];
    let p1 = o + table_events(memories);
    let p2 = o + table_events(vectors);
    let p3 = o + table_events(captures);
    assert(copy_events(memories, vectors, captures) =~= p1 + p2 + p3);
    let s0 = copy_start();
    lemma_open_then_table(s0, memories);
    let s1 = feed(s0, p1);
    assert(s1.copied =~= seq![memories.len(), 0nat, 0nat]);
    lemma_open_then_table(s1, vectors);
    let s2 = feed(s1, p2);
    assert(s2.copied =~= seq![memories.len(), vectors.len(), 0nat]);
    lemma_open_then_table(s2, captures);
    let s3 = feed(s2, p3);
    assert(s3.copied =~= seq![memories.len(), vectors.len(), captures.len()]);
    lemma_feed_concat(s0, p1, p2);
    lemma_feed_concat(s0, p1 + p2, p3);
}

/// `?1, ?2, ..., ?n` holds exactly `n` placeholders.
pub proof fn lemma_placeholders_count(n: nat)
    ensures
        count_char(placeholders(n), '?') == n,
    decreases n,
{
    let item = |i: int| "?"@ + decimal((i + 1) as nat);
    let items = Seq::new(n, item);
    reveal_strlit("?");
    reveal_strlit(", ");
    assert("?"@ =~= seq!['?']);
    lemma_count_char_absent(", "@, '?');
    if n == 0 {
        assert(items =~= Seq::<Seq<char>>::empty());
        assert(placeholders(n) =~= Seq::<char>::empty());
    } else {
        let last = item((n - 1) as int);
        assert(seq!['?'].drop_last() =~= Seq::<char>::empty());
        assert(count_char(seq!['?'].drop_last(), '?') == 0);
        assert(seq!['?'].last() == '?');
        assert(count_char(seq!['?'], '?') == 1);
        lemma_decimal_digits_only(n, '?');
        lemma_count_char_concat("?"@, decimal(n), '?');
        assert(count_char(last, '?') == 1);
        if n == 1 {
            assert(placeholders(n) == items[0]);
        } else {
            lemma_placeholders_count((n - 1) as nat);
            assert(items.drop_last() =~= Seq::new((n - 1) as nat, item));
            assert(placeholders(n) == placeholders((n - 1) as nat) + ", "@ + last);
            lemma_count_char_concat(placeholders((n - 1) as nat), ", "@, '?');
            lemma_count_char_concat(placeholders((n - 1) as nat) + ", "@, last, '?');
        }
    }
}

/// The statement that inserts a row of `n` columns holds exactly `n`
/// placeholders, one per column.
pub proof fn lemma_insert_sql_count(t: nat, n: nat)
    ensures
        count_char(insert_sql(copied_table(t)@, n), '?') == n,
{
    reveal_strlit("memories");
    reveal_strlit("memory_vectors");
    reveal_strlit("raw_captures");
    reveal_strlit("INSERT OR IGNORE INTO ");
    reveal_strlit(" VALUES (");
    reveal_strlit(")");
    let table = copied_table(t)@;
    lemma_count_char_absent(MEMORIES@, '?');
    lemma_count_char_absent(MEMORY_VECTORS@, '?');
    lemma_count_char_absent(RAW_CAPTURES@, '?');
    lemma_count_char_absent("INSERT OR IGNORE INTO "@, '?');
    lemma_count_char_absent(" VALUES ("@, '?');
    lemma_count_char_absent(")"@, '?');
    lemma_placeholders_count(n);
    let a = "INSERT OR IGNORE INTO "@;
    let b = " VALUES ("@;
    let c = ")"@;
    let p = placeholders(n);
    lemma_count_char_concat(a, table, '?');
    lemma_count_char_concat(a + table, b, '?');
    lemma_count_char_concat(a + table + b, p, '?');
    lemma_count_char_concat(a + table + b + p, c, '?');
}

/// Once a row of `n` columns is read, the copy inserts it into the table
/// being copied with a statement that has exactly one placeholder per
/// column, whatever `n` is.
pub proof fn law_insert_has_a_placeholder_per_column(s: CopyState, n: usize, a: CopyAction)
    requires
        s.accepts(CopyEvent::Row(n)),
        s.next(CopyEvent::Row(n)).prompts(a),
    ensures
        a matches CopyAction::Insert(sql) && count_char(sql@, '?') == n,
        s.next(CopyEvent::Row(n)).table == s.table,
{
    lemma_insert_sql_count(s.table, n as nat);
}

} // verus!
