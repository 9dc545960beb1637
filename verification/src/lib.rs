//! Secure credential vault and OAuth token lifecycle library.
//!
//! The crate encrypts named secrets at rest with AES-256-GCM under a single
//! master key, keeps per-service OAuth tokens fresh across restarts, parses
//! the vendor responses those flows produce, and decides when a failed
//! operation is worth retrying.

pub mod config;
pub mod crypto;
pub mod errors;
pub mod json;
pub mod library;
pub mod logging;
pub mod media;
pub mod metadata;
pub mod performance;
pub mod playlist;
pub mod retry;
pub mod service;
pub mod skin;
pub mod strutil;
pub mod token;
pub mod vault;
