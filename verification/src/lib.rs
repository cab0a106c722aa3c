//! Configuration model of the Komodo Core API: the configuration record and
//! its defaults, environment overrides, the sanitized (secret free) form that
//! is logged, and the read API answers computed from it (core info, secret
//! names, git providers and docker registries merged from several sources).
pub mod connection;
pub mod core_config;
pub mod entities;
pub mod env;
pub mod keys;
pub mod listing;
pub mod merge;
pub mod merge_laws;
pub mod monitoring;
pub mod order;
pub mod providers;
pub mod read_api;
pub mod redact;
pub mod text;
pub mod timing;
