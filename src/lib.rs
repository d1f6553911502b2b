//! Credential resolution and caching: profile files, provider precedence,
//! `credential_process` output, assume-role chains and an expiring cache.

pub mod assume_role;
pub mod cache;
pub mod chain;
pub mod config_file;
pub mod credentials;
pub mod process;
pub mod providers;
pub mod timestamp;
