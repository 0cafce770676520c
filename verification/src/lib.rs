//! A sequential archival client for one game-data web API: it resolves each
//! entity kind to a request URL and a local path, normalizes every JSON
//! response into a stable pretty-printed artifact, and drives the
//! three-tier fetch sweep (games and characters, then per-game file lists,
//! then per-file scripts) in which each tier's requests are discovered by
//! parsing the documents the tier above has already stored.

pub mod decimal;
pub mod driver;
pub mod endpoints;
pub mod file_paths;
pub mod json;
pub mod laws;
pub mod records;
pub mod report;
