//! A pluggable client core for large-language-model backends.
//!
//! The crate centres on a provider registry: backend integrations are
//! registered under a name, looked up, constructed from a configuration
//! value, and then spoken to through a uniform completion contract that
//! offers both a single-shot `complete` and an incremental `stream`.
//! Network and terminal I/O live outside this crate; everything here is
//! the decision logic, verified.

pub mod chunks;
pub mod config;
pub mod errors;
pub mod openai;
pub mod provider;
pub mod registry;
pub mod text;
pub mod ui;
