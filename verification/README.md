# WitchOps core

The core of an operations console, written in Rust and verified with Verus: audited execution of
commands on servers, quick actions, the knowledge base behind them, and the check for updates.

The library performs no I/O. Each operation gives the SQL statement to run, the command to send or
the request to make, and a later call takes in what came back and decides what follows. Contracts
say what is recorded, sent and reported for every input.

- `src/audit.rs`, `src/executor.rs`: the audit log and the audited execution of a command. The
  intent is on record before a command can be obtained; a result is reported only once it is on
  record.
- `src/commands/`: listings of the audit log, skills, documents, quick actions and updates.
  `quick_action_laws.rs` states what holds of every run of a quick action.
- `src/tables.rs`, `src/forms.rs`, `src/form_texts.rs`: what each SQL statement asks of its table,
  and the proof that its text says so.
- `src/audit_laws.rs`, `src/commands/*_laws.rs`: what follows for stored rows. A registered entry is
  completed exactly once; listings and counts show what they are meant to; records are found as they
  were stored; a converted skill is disabled. That SQLite does what it is asked is taken for granted
  there and tried in `tests/database.rs`.
- `src/sql.rs`, `src/queries.rs`: statements with their bound values, and the proof that every
  parameter gets exactly one value.
- `src/text.rs`, `src/decimal.rs`, `src/clip.rs`, `src/json.rs`: text, numbers and JSON strings.
- `src/clock.rs`: the wall clock.
- `app/`: the application around the library: SQLite, HTTP and the types exchanged as JSON.
- `tests/`: examples, among them statements run against an in-memory SQLite database.

Two functions are believed rather than proved: `clock::utc_now` (chrono) and
`json::write_json_string` (serde_json).
