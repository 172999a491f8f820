# memso

The storage layer of a memory store kept in a turso database: the schema and
its versioned upgrades, how the database is opened, switching to and syncing
a remote replica, and copying every table from one database into another.

- `src/` is the verified library. Each operation that talks to the database
  is a decision procedure over plain values: `migrations::Migrator` and
  `remote::Copier` are state machines that say which statement to run next
  given how the last one went; `db::plan_open`, `remote::prepare_enable` and
  `remote::plan_sync` decide what to open with which settings; the error
  types render their messages. Laws about complete runs are proof functions
  named `law_*`.
- `app/` performs the work: it awaits turso, creates directories, loads the
  embedding model and prints, following what the library decides.
- `tests/` exercises the library on concrete values.
