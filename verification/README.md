# saxo_receiver

The receiver of SaxoTrader captures: it stores what a browser extension
pushes into SQLite, and answers AI agents over the Model Context Protocol
(JSON-RPC, one JSON document per line).

- `src/` is the verified library (Verus). It decides how a push is stored
  (`ingest`), how each JSON-RPC request is answered (`mcp`, a state machine
  that asks for one database query at a time; a notification is never
  answered), and lays out the JSON of every answer (`answer`). The SQL text
  of every statement and query is built in `sql`; a chart table is named by
  its quoted stock symbol. `placeholders` proves that every statement and
  every query binds exactly one value to each `?` placeholder, and that
  answering a request only runs `SELECT` queries.
- `app/main.rs` is the server around it: HTTP with axum, SQLite with sqlx,
  JSON with serde_json. It runs the statements and queries that the library
  plans, and prints the answers that the library lays out.
- `tests/` runs the library on concrete requests and pushes.
