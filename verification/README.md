# illuvi_analytics

Verified core of the IlluviAnalytics data collector, which reads Illuvium land
mints, assets, orders and transfers from the ImmutableX API and stores them in
Postgres, and of the decisions of its web front end.

- `src/` is the library, verified with Verus:
  - `text`: the integer grammar of Rust's `FromStr`, parsers for `i32`, `u16`
    and `bool`, and decimal rendering of `i32` (with a round-trip law);
  - `env_utils`: values of configuration variables;
  - `price_utils`: placing the decimal point in a token quantity;
  - `model`: the API records as plain values, and the `PaginatedApi` trait;
  - `api_reader`: request URLs and the paging decisions of the readers;
  - `db`: the rows written to each table, built from API records;
  - `time_utils`: RFC 3339 parsing and time formatting through `chrono`;
  - `site`: the front end's requests, events filter, search box and layout.
- `app/` is the program around it: environment, HTTP with `reqwest`, JSON with
  `serde`, Postgres with `sqlx`, the `tokio` runtime and the paging loops.
- `tests/` exercises the library on concrete values.
