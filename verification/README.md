# komodo_core_config

The configuration model of the Komodo Core API, verified with Verus.

- `src/core_config.rs`: the configuration record, its defaults, the sanitized
  (secret free) form that is logged, and the server, CORS and session getters.
- `src/env.rs`: the environment overrides and their laws.
- `src/entities.rs`, `src/providers.rs`: the nested settings (logging,
  database, login providers, git providers, docker registries, builders).
- `src/merge.rs`, `src/merge_laws.rs`, `src/listing.rs`, `src/order.rs`: how
  the read API merges, completes and sorts git providers, docker registries
  and secret names.
- `src/read_api.rs`: the read requests and their answers.
- `src/connection.rs`, `src/keys.rs`, `src/timing.rs`, `src/monitoring.rs`:
  the calls into `url`, `urlencoding`, `mogh_pki` and `async_timing_util`,
  each behind a small trusted wrapper, and the verified logic around them.
- `app/`: the startup program, which reads the environment (`envy`), the
  configuration files (`mogh_config`) and secret files
  (`mogh_secret_file`), and hands plain values to the library.
