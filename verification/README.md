# sick_api

The logic of the SickPool mining pool API, verified with Verus: how the API names its
redis keys, buckets its time series, pages and sorts its tables, builds its SQL and
redis queries, and shapes its answers.

- `src/` is the verified library.
  - `redis_interop`: key prefixes and block status bits.
  - `routes/redis`: key formatting, time series windows, range queries, gap filling.
  - `routes/history`: series bucketings, history routes and results.
  - `routes/pool`: the pool, block, miner and payout tables and overviews.
  - `routes/miner`, `routes/solver`: miner and worker filters and statistics series.
  - `routes/types`, `routes/table_res`, `routes/payout`: answer and table types.
  - `config`, `pool_events`, `text`: configuration, keyspace notifications, text helpers.
- `app/` is the HTTP server around it (actix-web, MySQL, redis), which does the I/O and
  the floating-point arithmetic.
- `tests/` runs the library on concrete values.
