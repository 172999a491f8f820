//! The schema of the memory store and its versioned upgrades, driven one
//! statement at a time.
//!
//! A run executes the base schema statements, reads the recorded schema
//! version, and then applies every upgrade above that version, recording the
//! new version after each. The caller performs each statement on the
//! database and reports how it went; `Migrator` decides what comes next.
use vstd::prelude::*;
use crate::text::{contains_seq, contains_text};

verus! {

/// Creates the table that records the schema version.
pub const SCHEMA_VERSION_TABLE: &'static str = "CREATE TABLE IF NOT EXISTS schema_version (
        version INTEGER NOT NULL
    )";

/// Creates the table of memories.
pub const MEMORIES_TABLE: &'static str = "CREATE TABLE IF NOT EXISTS memories (
        id            TEXT PRIMARY KEY,
        project_id    TEXT NOT NULL,
        topic_key     TEXT,
        type          TEXT NOT NULL,
        title         TEXT NOT NULL,
        content       TEXT NOT NULL,
        facts         TEXT,
        tags          TEXT,
        importance    REAL    DEFAULT 0.5,
        confidence    REAL    DEFAULT 1.0,
        access_count  INTEGER DEFAULT 0,
        last_accessed TEXT,
        pinned        INTEGER DEFAULT 0,
        status        TEXT    DEFAULT 'active',
        supersedes    TEXT,
        session_id    TEXT,
        source        TEXT    NOT NULL DEFAULT 'realtime',
        created_at    TEXT    NOT NULL,
        updated_at    TEXT    NOT NULL,
        content_hash  TEXT    NOT NULL
    )";

/// Makes a topic key unique within a project.
pub const MEMORIES_TOPIC_KEY_INDEX: &'static str = "CREATE UNIQUE INDEX IF NOT EXISTS memories_topic_key
        ON memories (project_id, topic_key)
        WHERE topic_key IS NOT NULL";

/// Indexes memories by project and status.
pub const MEMORIES_PROJECT_STATUS_INDEX: &'static str = "CREATE INDEX IF NOT EXISTS memories_project_status
        ON memories (project_id, status)";

/// Indexes memories by content hash and session.
pub const MEMORIES_CONTENT_HASH_INDEX: &'static str = "CREATE INDEX IF NOT EXISTS memories_content_hash
        ON memories (content_hash, session_id)";

/// Creates the table of sessions.
pub const SESSIONS_TABLE: &'static str = "CREATE TABLE IF NOT EXISTS sessions (
        id         TEXT PRIMARY KEY,
        project_id TEXT NOT NULL,
        started_at TEXT NOT NULL,
        ended_at   TEXT,
        status     TEXT DEFAULT 'active',
        agent      TEXT
    )";

/// Creates the table of memory embeddings, stored as plain blobs.
pub const MEMORY_VECTORS_TABLE: &'static str = "CREATE TABLE IF NOT EXISTS memory_vectors (
        memory_id TEXT NOT NULL REFERENCES memories(id) ON DELETE CASCADE,
        embedding BLOB NOT NULL
    )";

/// Creates the table of raw tool captures.
pub const RAW_CAPTURES_TABLE: &'static str = "CREATE TABLE IF NOT EXISTS raw_captures (
        id           TEXT PRIMARY KEY,
        project_id   TEXT NOT NULL,
        captured_at  TEXT NOT NULL,
        tool_name    TEXT NOT NULL,
        summary      TEXT NOT NULL,
        raw_data     TEXT NOT NULL,
        presented_at TEXT
    )";

/// Indexes raw captures by project and presentation time.
pub const RAW_CAPTURES_PENDING_INDEX: &'static str = "CREATE INDEX IF NOT EXISTS raw_captures_pending
        ON raw_captures (project_id, presented_at)";

/// Drops the embedding table of schema version 1.
pub const DROP_MEMORY_VECTORS: &'static str = "DROP TABLE IF EXISTS memory_vectors";

/// Drops the full-text table of schema version 1.
pub const DROP_MEMORIES_FTS: &'static str = "DROP TABLE IF EXISTS memories_fts";

/// Creates the native full-text index over title, content and facts.
pub const MEMORIES_FTS_INDEX: &'static str = "CREATE INDEX IF NOT EXISTS memories_fts
        ON memories USING fts (title, content, facts)
        WITH (weights = 'title=3.0,content=1.0,facts=1.5')";

/// Renames the legacy `agent` source of memories to `realtime`; the upgrade
/// to schema version 1.
pub const RENAME_AGENT_SOURCE: &'static str = "UPDATE memories SET source = 'realtime' WHERE source = 'agent'";

/// Forgets the recorded schema version.
pub const CLEAR_VERSION: &'static str = "DELETE FROM schema_version";

/// Records the schema version given as its one parameter.
pub const RECORD_VERSION: &'static str = "INSERT INTO schema_version (version) VALUES (?1)";

/// Reads the recorded schema version.
pub const READ_VERSION: &'static str = "SELECT version FROM schema_version LIMIT 1";

/// The text by which a failed statement reports that its object exists.
pub const ALREADY_EXISTS: &'static str = "already exists";

/// The number of base schema statements.
pub const SCHEMA_STATEMENT_COUNT: usize = 9;

/// The schema version that a complete run leaves recorded.
pub const LATEST_VERSION: i64 = 2;

/// What a failure of a statement does to the run.
#[derive(Clone, Copy, Debug, PartialEq, Eq, Structural)]
pub enum OnError {
    /// The run stops and reports the database's message.
    Fail,
    /// A failure that says the object already exists is passed over; any
    /// other stops the run as a base schema error.
    SkipExistingInSchema,
    /// A failure that says the object already exists is passed over; any
    /// other stops the run as an upgrade error.
    SkipExistingInUpgrade,
}

/// A statement with its optional integer parameter `?1`.
#[derive(Clone, Copy, Debug)]
pub struct Statement {
    pub sql: &'static str,
    pub param: Option<i64>,
}

/// One step of a run.
#[derive(Clone, Copy, Debug)]
pub enum Step {
    /// Execute a statement.
    Run(Statement, OnError),
    /// Read the recorded schema version.
    ReadVersion,
}

/// The `i`-th base schema statement.
pub open spec fn schema_statement(i: int) -> &'static str {
    if i == 0 {
        SCHEMA_VERSION_TABLE
    } else if i == 1 {
        MEMORIES_TABLE
    } else if i == 2 {
        MEMORIES_TOPIC_KEY_INDEX
    } else if i == 3 {
        MEMORIES_PROJECT_STATUS_INDEX
    } else if i == 4 {
        MEMORIES_CONTENT_HASH_INDEX
    } else if i == 5 {
        SESSIONS_TABLE
    } else if i == 6 {
        MEMORY_VECTORS_TABLE
    } else if i == 7 {
        RAW_CAPTURES_TABLE
    } else {
        RAW_CAPTURES_PENDING_INDEX
    }
}

/// The step that executes `sql` without a parameter.
pub open spec fn run_plain(sql: &'static str, on_error: OnError) -> Step {
    Step::Run(Statement { sql, param: None }, on_error)
}

/// The step that records schema version `v`.
pub open spec fn record(v: i64) -> Step {
    Step::Run(Statement { sql: RECORD_VERSION, param: Some(v) }, OnError::Fail)
}

/// The upgrade to schema version 1: rename the legacy source, then record 1.
pub open spec fn upgrade_to_v1() -> Seq<Step> {
    seq![
        run_plain(RENAME_AGENT_SOURCE, OnError::Fail),
        run_plain(CLEAR_VERSION, OnError::Fail),
        record(1),
    ]
}

/// The upgrade to schema version 2: replace the embedding table and the
/// full-text table by their native forms, then record 2.
pub open spec fn upgrade_to_v2() -> Seq<Step> {
    seq![
        run_plain(DROP_MEMORY_VECTORS, OnError::SkipExistingInUpgrade),
        run_plain(DROP_MEMORIES_FTS, OnError::SkipExistingInUpgrade),
        run_plain(MEMORY_VECTORS_TABLE, OnError::SkipExistingInUpgrade),
        run_plain(MEMORIES_FTS_INDEX, OnError::SkipExistingInUpgrade),
        run_plain(CLEAR_VERSION, OnError::Fail),
        record(2),
    ]
}

/// The upgrades applied to a database whose recorded version is `v`.
pub open spec fn upgrades(v: i64) -> Seq<Step> {
    (if v < 1 { upgrade_to_v1() } else { Seq::empty() }) + (if v < 2 {
        upgrade_to_v2()
    } else {
        Seq::empty()
    })
}

/// Every step of a run on a database whose recorded version is `v`: the base
/// schema, the version read, then the upgrades.
pub open spec fn script(v: i64) -> Seq<Step> {
    Seq::new(
        SCHEMA_STATEMENT_COUNT as nat,
        |i: int| run_plain(schema_statement(i), OnError::SkipExistingInSchema),
    ).push(Step::ReadVersion) + upgrades(v)
}

/// The version that a read row gives: the row's integer, or 0 when there is
/// no row or its value is not an integer.
pub open spec fn row_version(row: Option<Option<i64>>) -> i64 {
    match row {
        Some(Some(v)) => v,
        _ => 0,
    }
}

/// The step at `position`, given the version once it has been read.
pub open spec fn step_at(position: nat, version: Option<i64>) -> Option<Step> {
    if position < SCHEMA_STATEMENT_COUNT {
        Some(run_plain(schema_statement(position as int), OnError::SkipExistingInSchema))
    } else if position == SCHEMA_STATEMENT_COUNT {
        Some(Step::ReadVersion)
    } else {
        match version {
            Some(v) => {
                let k = position - SCHEMA_STATEMENT_COUNT - 1;
                if k < upgrades(v).len() {
                    Some(upgrades(v)[k])
                } else {
                    None
                }
            },
            None => None,
        }
    }
}

/// What the caller reports after performing an action.
#[derive(Debug)]
pub enum Event {
    /// The statement was executed.
    Done,
    /// The statement or the version read failed with this message.
    Failed(String),
    /// The version read returned this row: `None` when there is no row,
    /// `Some(None)` when its value is not an integer.
    VersionRow(Option<Option<i64>>),
}

/// Why a run stopped.
#[derive(Debug)]
pub enum MigrationError {
    /// A base schema statement failed for another reason than an existing object.
    Schema { statement: &'static str, message: String },
    /// An upgrade statement failed for another reason than an existing object.
    Upgrade { statement: &'static str, message: String },
    /// Any other statement, or the version read, failed.
    Database { message: String },
}

impl MigrationError {
    pub open spec fn text(self) -> Seq<char> {
        match self {
            MigrationError::Schema { statement, message } => "Schema error in statement: "@
                + statement@ + "\n"@ + message@,
            MigrationError::Upgrade { statement, message } => "Migration v2 error in statement: "@
                + statement@ + "\n"@ + message@,
            MigrationError::Database { message } => message@,
        }
    }

    /// The message that reports this error.
    pub fn message(&self) -> (s: String)
        ensures
            s@ == self.text(),
    {
        match self {
            MigrationError::Schema { statement, message } => {
                let mut s = String::from_str("Schema error in statement: ");
                s.append(statement);
                s.append("\n");
                s.append(message.as_str());
                s
            },
            MigrationError::Upgrade { statement, message } => {
                let mut s = String::from_str("Migration v2 error in statement: ");
                s.append(statement);
                s.append("\n");
                s.append(message.as_str());
                s
            },
            MigrationError::Database { message } => message.clone(),
        }
    }
}

/// What the caller does next.
#[derive(Debug)]
pub enum Action {
    /// Execute the statement and report `Done` or `Failed`.
    Execute(Statement),
    /// Read the recorded version and report `VersionRow` or `Failed`.
    ReadVersion,
    /// The run is complete.
    Finish,
    /// The run failed.
    Abort(MigrationError),
}

/// Where a run stands: the position of its current step, the version once
/// read, and whether it has stopped on a failure.
pub struct MigrationState {
    pub position: nat,
    pub version: Option<i64>,
    pub halted: bool,
}

/// The state before the first step.
pub open spec fn initial_state() -> MigrationState {
    MigrationState { position: 0, version: None, halted: false }
}

impl MigrationState {
    /// The step the run stands at; `None` once every step is done.
    pub open spec fn current(self) -> Option<Step> {
        step_at(self.position, self.version)
    }

    /// The events that can answer the current step.
    pub open spec fn accepts(self, e: Event) -> bool {
        &&& !self.halted
        &&& match self.current() {
            Some(Step::Run(_, _)) => e is Done || e is Failed,
            Some(Step::ReadVersion) => e is VersionRow || e is Failed,
            None => false,
        }
    }

    /// A failure with message `m` of the current step is passed over.
    pub open spec fn skips(self, m: Seq<char>) -> bool {
        match self.current() {
            Some(Step::Run(_, on_error)) => on_error != OnError::Fail && contains_seq(
                m,
                ALREADY_EXISTS@,
            ),
            _ => false,
        }
    }

    /// The run goes on to the next step after `e`.
    pub open spec fn moves_on(self, e: Event) -> bool {
        match e {
            Event::Failed(m) => self.skips(m@),
            _ => true,
        }
    }

    /// The state after `e`.
    pub open spec fn next(self, e: Event) -> MigrationState {
        if self.moves_on(e) {
            MigrationState {
                position: self.position + 1,
                version: match e {
                    Event::VersionRow(row) => Some(row_version(row)),
                    _ => self.version,
                },
                halted: false,
            }
        } else {
            MigrationState { halted: true, ..self }
        }
    }

    /// `a` is what the caller does in this state.
    pub open spec fn prompts(self, a: Action) -> bool {
        match self.current() {
            Some(Step::Run(st, _)) => a matches Action::Execute(s) && s == st,
            Some(Step::ReadVersion) => a is ReadVersion,
            None => a is Finish,
        }
    }

    /// `a` reports the failure, with message `m`, of the current step.
    pub open spec fn reports(self, a: Action, m: Seq<char>) -> bool {
        match self.current() {
            Some(Step::Run(st, OnError::SkipExistingInSchema)) => a matches Action::Abort(
                MigrationError::Schema { statement, message },
            ) && statement == st.sql && message@ == m,
            Some(Step::Run(st, OnError::SkipExistingInUpgrade)) => a matches Action::Abort(
                MigrationError::Upgrade { statement, message },
            ) && statement == st.sql && message@ == m,
            _ => a matches Action::Abort(MigrationError::Database { message }) && message@ == m,
        }
    }
}

/// Drives a run of the migrations.
pub struct Migrator {
    position: usize,
    version: Option<i64>,
    halted: bool,
}

impl View for Migrator {
    type V = MigrationState;

    closed spec fn view(&self) -> MigrationState {
        MigrationState { position: self.position as nat, version: self.version, halted: self.halted }
    }
}

fn schema_statement_at(i: usize) -> (s: &'static str)
    requires
        i < SCHEMA_STATEMENT_COUNT,
    ensures
        s == schema_statement(i as int),
{
    if i == 0 {
        SCHEMA_VERSION_TABLE
    } else if i == 1 {
        MEMORIES_TABLE
    } else if i == 2 {
        MEMORIES_TOPIC_KEY_INDEX
    } else if i == 3 {
        MEMORIES_PROJECT_STATUS_INDEX
    } else if i == 4 {
        MEMORIES_CONTENT_HASH_INDEX
    } else if i == 5 {
        SESSIONS_TABLE
    } else if i == 6 {
        MEMORY_VECTORS_TABLE
    } else if i == 7 {
        RAW_CAPTURES_TABLE
    } else {
        RAW_CAPTURES_PENDING_INDEX
    }
}

fn plain(sql: &'static str, on_error: OnError) -> (s: Step)
    ensures
        s == run_plain(sql, on_error),
{
    Step::Run(Statement { sql, param: None }, on_error)
}

/// The `k`-th upgrade step for a database at version `v`.
fn upgrade_at(v: i64, k: usize) -> (r: Option<Step>)
    ensures
        r == (if k < upgrades(v).len() {
            Some(upgrades(v)[k as int])
        } else {
            None
        }),
{
    let first: usize = if v < 1 {
        3
    } else {
        0
    };
    let ghost a = if v < 1 {
        upgrade_to_v1()
    } else {
        Seq::<Step>::empty()
    };
    let ghost b = if v < 2 {
        upgrade_to_v2()
    } else {
        Seq::<Step>::empty()
    };
    assert(upgrades(v) == a + b);
    assert(a.len() == first);
    if k < first {
        assert(upgrades(v)[k as int] == a[k as int]);
        if k == 0 {
            Some(plain(RENAME_AGENT_SOURCE, OnError::Fail))
        } else if k == 1 {
            Some(plain(CLEAR_VERSION, OnError::Fail))
        } else {
            Some(Step::Run(Statement { sql: RECORD_VERSION, param: Some(1) }, OnError::Fail))
        }
    } else if v < 2 {
        let j = k - first;
        if j < 6 {
            assert(upgrades(v)[k as int] == b[j as int]);
        }
        if j == 0 {
            Some(plain(DROP_MEMORY_VECTORS, OnError::SkipExistingInUpgrade))
        } else if j == 1 {
            Some(plain(DROP_MEMORIES_FTS, OnError::SkipExistingInUpgrade))
        } else if j == 2 {
            Some(plain(MEMORY_VECTORS_TABLE, OnError::SkipExistingInUpgrade))
        } else if j == 3 {
            Some(plain(MEMORIES_FTS_INDEX, OnError::SkipExistingInUpgrade))
        } else if j == 4 {
            Some(plain(CLEAR_VERSION, OnError::Fail))
        } else if j == 5 {
            Some(Step::Run(Statement { sql: RECORD_VERSION, param: Some(2) }, OnError::Fail))
        } else {
            None
        }
    } else {
        None
    }
}

/// The version that a read row gives: the row's integer, or 0 when there is
/// no row or its value is not an integer.
pub fn version_from_row(row: Option<Option<i64>>) -> (v: i64)
    ensures
        v == row_version(row),
{
    match row {
        Some(Some(v)) => v,
        _ => 0,
    }
}

impl Migrator {
    #[verifier::type_invariant]
    spec fn well_formed(self) -> bool {
        &&& (self.version is None <==> self.position <= SCHEMA_STATEMENT_COUNT)
        &&& (self.version matches Some(v) ==> self.position <= SCHEMA_STATEMENT_COUNT + 1
            + upgrades(v).len())
    }

    /// A run that has taken no step yet.
    pub fn new() -> (m: Migrator)
        ensures
            m@ == initial_state(),
    {
        Migrator { position: 0, version: None, halted: false }
    }

    fn current_step(&self) -> (s: Option<Step>)
        ensures
            s == self@.current(),
    {
        proof {
            use_type_invariant(self);
        }
        if self.position < SCHEMA_STATEMENT_COUNT {
            Some(plain(schema_statement_at(self.position), OnError::SkipExistingInSchema))
        } else if self.position == SCHEMA_STATEMENT_COUNT {
            Some(Step::ReadVersion)
        } else {
            match self.version {
                Some(v) => upgrade_at(v, self.position - SCHEMA_STATEMENT_COUNT - 1),
                None => None,
            }
        }
    }

    /// What the caller does in the current state.
    pub fn action(&self) -> (a: Action)
        ensures
            self@.prompts(a),
    {
        match self.current_step() {
            Some(Step::Run(st, _)) => Action::Execute(st),
            Some(Step::ReadVersion) => Action::ReadVersion,
            None => Action::Finish,
        }
    }

    /// Whether `e` can answer the current step.
    pub fn accepts(&self, e: &Event) -> (b: bool)
        ensures
            b == self@.accepts(*e),
    {
        if self.halted {
            return false;
        }
        match self.current_step() {
            Some(Step::Run(_, _)) => match e {
                Event::Done => true,
                Event::Failed(_) => true,
                Event::VersionRow(_) => false,
            },
            Some(Step::ReadVersion) => match e {
                Event::Done => false,
                Event::Failed(_) => true,
                Event::VersionRow(_) => true,
            },
            None => false,
        }
    }

    /// Takes the caller's report on the current step and says what to do next.
    pub fn step(&mut self, e: Event) -> (a: Action)
        requires
            old(self)@.accepts(e),
        ensures
            final(self)@ == old(self)@.next(e),
            old(self)@.moves_on(e) ==> final(self)@.prompts(a),
            !old(self)@.moves_on(e) ==> (e matches Event::Failed(m) && old(self)@.reports(a, m@)),
    {
        proof {
            use_type_invariant(&*self);
        }
        let cur = self.current_step();
        let ghost before = self@;
        match e {
            Event::Done => {
                *self = Migrator { position: self.position + 1, version: self.version, halted: false };
                assert(self@ == before.next(Event::Done));
                self.action()
            },
            Event::VersionRow(row) => {
                *self = Migrator {
                    position: self.position + 1,
                    version: Some(version_from_row(row)),
                    halted: false,
                };
                self.action()
            },
            Event::Failed(m) => {
                let skipped = match cur {
                    Some(Step::Run(_, on_error)) => on_error != OnError::Fail && contains_text(
                        m.as_str(),
                        ALREADY_EXISTS,
                    ),
                    _ => false,
                };
                assert(skipped == before.skips(m@));
                if skipped {
                    *self = Migrator {
                        position: self.position + 1,
                        version: self.version,
                        halted: false,
                    };
                    self.action()
                } else {
                    *self = Migrator {
                        position: self.position,
                        version: self.version,
                        halted: true,
                    };
                    match cur {
                        Some(Step::Run(st, OnError::SkipExistingInSchema)) => Action::Abort(
                            MigrationError::Schema { statement: st.sql, message: m },
                        ),
                        Some(Step::Run(st, OnError::SkipExistingInUpgrade)) => Action::Abort(
                            MigrationError::Upgrade { statement: st.sql, message: m },
                        ),
                        _ => Action::Abort(MigrationError::Database { message: m }),
                    }
                }
            },
        }
    }
}

/// The version recorded once a run completes on a database at version `v`.
pub open spec fn version_after(v: i64) -> i64 {
    if v < LATEST_VERSION {
        LATEST_VERSION
    } else {
        v
    }
}

/// A database whose recorded version is 2 or more gets the base schema and
/// the version read, and no upgrade step.
pub proof fn law_current_database_gets_no_upgrade(v: i64)
    requires
        v >= LATEST_VERSION,
    ensures
        upgrades(v) == Seq::<Step>::empty(),
        script(v).len() == SCHEMA_STATEMENT_COUNT + 1,
{
    assert(upgrades(v) =~= Seq::<Step>::empty());
}

/// The upgrades from below version 1 rename the legacy source and record 1
/// before the steps to version 2; from version 1 only the steps to version 2
/// are left.
pub proof fn law_upgrades_run_in_version_order(v: i64)
    ensures
        v < 1 ==> upgrades(v) == upgrade_to_v1() + upgrade_to_v2(),
        v == 1 ==> upgrades(v) == upgrade_to_v2(),
        upgrade_to_v1().last() == record(1),
        upgrade_to_v2().last() == record(2),
{
    if v == 1 {
        assert(upgrades(v) =~= upgrade_to_v2());
    }
}

/// Every upgrade ends by clearing the recorded version and recording the
/// version it reaches, so a second run on the same database upgrades
/// nothing.
pub proof fn law_second_run_upgrades_nothing(v: i64)
    ensures
        v < LATEST_VERSION ==> upgrades(v).len() >= 2 && upgrades(v).last() == record(
            version_after(v),
        ) && upgrades(v)[upgrades(v).len() - 2] == run_plain(CLEAR_VERSION, OnError::Fail),
        upgrades(version_after(v)) == Seq::<Step>::empty(),
{
    assert(upgrades(version_after(v)) =~= Seq::<Step>::empty());
    if v < LATEST_VERSION {
        let a = if v < 1 {
            upgrade_to_v1()
        } else {
            Seq::<Step>::empty()
        };
        assert(upgrades(v) == a + upgrade_to_v2());
        assert(upgrades(v).last() == upgrade_to_v2().last());
        assert(upgrades(v)[upgrades(v).len() - 2] == upgrade_to_v2()[4]);
    }
}

/// A failure that says the object already exists, of a statement that may
/// meet existing objects, leaves the run where a success would.
pub proof fn law_existing_objects_are_passed_over(s: MigrationState, m: String)
    requires
        s.accepts(Event::Failed(m)),
        s.current() matches Some(Step::Run(_, on_error)) && on_error != OnError::Fail,
        contains_seq(m@, ALREADY_EXISTS@),
    ensures
        s.next(Event::Failed(m)) == s.next(Event::Done),
{
}

/// Any other failure stops the run at the step that failed.
pub proof fn law_other_failures_stop_the_run(s: MigrationState, m: String)
    requires
        s.accepts(Event::Failed(m)),
        !s.skips(m@),
    ensures
        s.next(Event::Failed(m)).halted,
        s.next(Event::Failed(m)).position == s.position,
        s.next(Event::Failed(m)).version == s.version,
{
}

/// The report of success for the current step of `s`, where reading the
/// version returns `row`.
pub open spec fn success(s: MigrationState, row: Option<Option<i64>>) -> Event {
    match s.current() {
        Some(Step::ReadVersion) => Event::VersionRow(row),
        _ => Event::Done,
    }
}

/// The state after `k` successful steps from the start, where reading the
/// version returns `row`.
pub open spec fn after_successes(row: Option<Option<i64>>, k: nat) -> MigrationState
    decreases k,
{
    if k == 0 {
        initial_state()
    } else {
        let s = after_successes(row, (k - 1) as nat);
        s.next(success(s, row))
    }
}

/// A run in which every step succeeds goes through `script` of the version
/// it reads, step by step, and then finishes.
pub proof fn law_successful_run_follows_script(row: Option<Option<i64>>, k: nat)
    requires
        k <= script(row_version(row)).len(),
    ensures
        after_successes(row, k).position == k,
        !after_successes(row, k).halted,
        k < script(row_version(row)).len() ==> after_successes(row, k).current() == Some(
            script(row_version(row))[k as int],
        ),
        k == script(row_version(row)).len() ==> after_successes(row, k).current() is None,
        after_successes(row, k).version == (if k <= SCHEMA_STATEMENT_COUNT {
            None
        } else {
            Some(row_version(row))
        }),
    decreases k,
{
    let v = row_version(row);
    let base = Seq::new(
        SCHEMA_STATEMENT_COUNT as nat,
        |i: int| run_plain(schema_statement(i), OnError::SkipExistingInSchema),
    ).push(Step::ReadVersion);
    assert(script(v) == base + upgrades(v));
    if k > 0 {
        law_successful_run_follows_script(row, (k - 1) as nat);
        let s = after_successes(row, (k - 1) as nat);
        assert(s.moves_on(success(s, row)));
    }
    let t = after_successes(row, k);
    if k < script(v).len() {
        if k < SCHEMA_STATEMENT_COUNT {
            assert(script(v)[k as int] == base[k as int]);
        } else if k == SCHEMA_STATEMENT_COUNT {
            assert(script(v)[k as int] == base[k as int]);
        } else {
            assert(script(v)[k as int] == upgrades(v)[k - SCHEMA_STATEMENT_COUNT - 1]);
        }
    }
}

/// A run executes the nine base schema statements in this order, each of
/// which passes over an object that already exists: the version table, the
/// memories table and its three indexes, the sessions table, the embedding
/// table, and the raw capture table followed by its index.
pub proof fn law_base_schema_runs_in_order(row: Option<Option<i64>>)
    ensures
        after_successes(row, 0).current() == Some(
            run_plain(SCHEMA_VERSION_TABLE, OnError::SkipExistingInSchema),
        ),
        after_successes(row, 1).current() == Some(
            run_plain(MEMORIES_TABLE, OnError::SkipExistingInSchema),
        ),
        after_successes(row, 2).current() == Some(
            run_plain(MEMORIES_TOPIC_KEY_INDEX, OnError::SkipExistingInSchema),
        ),
        after_successes(row, 3).current() == Some(
            run_plain(MEMORIES_PROJECT_STATUS_INDEX, OnError::SkipExistingInSchema),
        ),
        after_successes(row, 4).current() == Some(
            run_plain(MEMORIES_CONTENT_HASH_INDEX, OnError::SkipExistingInSchema),
        ),
        after_successes(row, 5).current() == Some(
            run_plain(SESSIONS_TABLE, OnError::SkipExistingInSchema),
        ),
        after_successes(row, 6).current() == Some(
            run_plain(MEMORY_VECTORS_TABLE, OnError::SkipExistingInSchema),
        ),
        after_successes(row, 7).current() == Some(
            run_plain(RAW_CAPTURES_TABLE, OnError::SkipExistingInSchema),
        ),
        after_successes(row, 8).current() == Some(
            run_plain(RAW_CAPTURES_PENDING_INDEX, OnError::SkipExistingInSchema),
        ),
        after_successes(row, 9).current() == Some(Step::ReadVersion),
{
    law_successful_run_follows_script(row, 0);
    law_successful_run_follows_script(row, 1);
    law_successful_run_follows_script(row, 2);
    law_successful_run_follows_script(row, 3);
    law_successful_run_follows_script(row, 4);
    law_successful_run_follows_script(row, 5);
    law_successful_run_follows_script(row, 6);
    law_successful_run_follows_script(row, 7);
    law_successful_run_follows_script(row, 8);
    law_successful_run_follows_script(row, 9);
}

/// Every step of the base schema passes over a failure that says the object
/// already exists: the run goes on to the next statement, whatever the
/// position.
pub proof fn law_every_base_step_passes_over_existing(s: MigrationState, m: String)
    requires
        !s.halted,
        s.position < SCHEMA_STATEMENT_COUNT,
        contains_seq(m@, ALREADY_EXISTS@),
    ensures
        s.accepts(Event::Failed(m)),
        s.next(Event::Failed(m)) == (MigrationState {
            position: s.position + 1,
            version: s.version,
            halted: false,
        }),
{
}

} // verus!
