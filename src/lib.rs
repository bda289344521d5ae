//! Structured tracing events for a database client: payload truncation, stable
//! renderings of domain values, event emitters with a fixed field schema, the
//! per-component verbosity filter, and the merge of verbosity settings.

pub mod cmap;
pub mod command;
pub mod event;
pub mod hub;
pub mod level;
pub mod level_map;
pub mod merge;
pub mod payload;
pub mod pool;
pub mod repr;
pub mod sdam;
pub mod text;
