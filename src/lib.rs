//! Context acquisition and caching for an automated repository workflow tool:
//! typed snapshots of repository state, project layout, tool configuration and
//! invocation metadata, a fingerprint-validated cache policy, and the
//! orchestration rules that compose them into one bundle.

pub mod text;
pub mod words;
pub mod order;
pub mod types;
pub mod fingerprint;
pub mod status;
pub mod branch;
pub mod log;
pub mod tree;
pub mod rules;
pub mod agent;
pub mod survey;
pub mod interaction;
pub mod cache;
pub mod store;
pub mod bundle;
pub mod gather;
pub mod prompts;
pub mod config;
pub mod commands;
pub mod providers;
