# backend

The logic of a freelance-escrow backend and its Soroban ledger indexer, written in
Verus and proved against its contracts.

- `src/` is the verified library:
  - `text`: decimal numerals (reading `u32`/`u64`/`i64` as `str::parse` does, writing
    them), text equality and substring search;
  - `json`: a plain-data model of JSON values, member lookup, and reading and
    writing JSON text through `serde_json`;
  - `soroban_rpc`: the RPC client's configuration from environment values, the
    capped exponential backoff, the rate-limit wait, the retry rules, and reading
    ledger numbers and event pages out of replies;
  - `rpc_call`: the state machine of one JSON-RPC call (send, retry, succeed,
    fail), which reads the reply body and writes RPC errors as JSON text itself,
    and the error messages;
  - `routes`: job validation, the milestone split of a budget, the release rule;
  - `indexer_metrics`, `services::judge`, `error`: the data the service reports.
- `app/` is the service around it: HTTP handlers (axum), the database (sqlx), the
  HTTP transport and sleeps for the RPC client (reqwest, tokio), the judge
  client and the process-wide metrics.
- `tests/` runs the library on concrete values.
