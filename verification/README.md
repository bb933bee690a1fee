# vise_core

The bookkeeping core of a budget app: income sources, expense categories,
monthly budgets and transactions, with create / read / update / delete for
each, verified with Verus.

- `src/table.rs` — a table of records kept in ascending id order, ids handed
  out by a counter that never goes back; a table rebuilt from storage resumes
  after the largest id storage records as handed out (SQLite's
  `sqlite_sequence`), or after its largest stored id where none is recorded.
- `src/models/` — the row types, the requests that create them and the change
  sets that update them (`None` leaves a column, `Some(None)` clears a
  nullable one).
- `src/db/` — the store of four tables plus the ids of bank accounts and
  auto-categorisation rules it must keep references to; its contents are
  private and a type invariant keeps every table in id order. Every
  operation refuses to create a dangling reference, so a store whose
  references all resolve keeps them so; rows read back from storage are
  taken as they are.
- `src/repository/` — one module per table with `insert`, `get_all`,
  `get_by_id`/`get_id`, `update` and `delete`, each with an exact contract.
- `src/laws.rs` — read-after-write properties proved over those contracts.
- `src/clock.rs` — the wall clock used for `created_at` / `updated_at`.
- `app/` — SQLite persistence through diesel: the schema, the serde/diesel
  row types, opening a database file, and running each operation in one
  immediate transaction that reads the file into the verified store, lets
  the library decide, and writes the accepted change back.
