//! Verified core of a multi-account GitHub triage app.

pub mod app;
pub mod decimal;
pub mod domain;
pub mod domain_laws;
pub mod github;
pub mod github_laws;
pub mod pattern;
pub mod storage;
pub mod storage_laws;
pub mod text;
pub mod text_laws;
pub mod text_map;
pub mod time;

pub use vstd::hash_set::StringHashSet;
