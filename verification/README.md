# processed_subtitles

Keeps track of which subtitles of movies and episodes have been processed by which
action, in a SQLite database, so that no action is applied twice.

- `src/` is a Verus library without input or output. Its functions hand out steps (a
  statement to run, a directory to create); what came of a step goes into the `reply` of
  that step, which hands out the next one. Every function is verified against its contract.
  `src/store.rs` models what the database holds; the laws in `src/laws/` say what the steps
  mean over that model.
- `app/` carries the steps out, with `rusqlite`, `directories` and `tokio`.
- `tests/` runs the steps on a database in memory, and with made-up answers.

That SQLite gives the statements the meaning that `src/store.rs` gives to the requests, within
what that model covers, is not proved; the tests exercise it.
