# birdcode-store

The durable event store of a coding agent. It decides which events a session may record, what a
recorded history amounts to, and how an older database is brought up to date. The decisions are
written in Verus: every function of `src/` states in its contract what it returns, and is proved to.

## Layout

- `src/` is the library.
  - `text`, `clock`, `digest`, `json`, `identity` and the other small modules hold the values that
    everything else is made of.
  - `event` and `history` hold the events and the log; `store` joins the log with the runs and the
    sessions, and `contract` with the names and limits that the deployment agrees on.
  - `event_admission`, `lifecycle_identity`, `cleanup_v2` and `cleanup_preflight` decide what is
    admitted, and what a cleanup needs before it is granted.
  - `root_planning_*` follows a plan from its first stage to its acceptance or failure.
  - `planner_v2_*` follows the turns of a planner: evidence, request, preparation, end, decision, and
    what comes next.
  - `parallel_recon_bootstrap`, `recon_*` begin a pair of children as one, and find it again.
  - `schema_*`, `migration_coordinator` and `legacy_*` judge a database and migrate it in batches;
    `name_listing` writes out what was found instead of what is expected.
- `tests/` runs the library on concrete histories.
- `app/` opens the database file, runs its scripts and moves rows, and holds the transactions in which
  the library is asked what to do. How records are written down, and what is replayed from artifacts, it
  takes from its surroundings.

What the library takes from other crates stands in `json` and `clock`, and what it takes from std in
`name_listing`, each behind one function whose contract says what is believed of it.

Properties that span functions are public proof functions; their names begin with `law_`.
