//! Declarative DNS zone synchronization, verified core.
//!
//! The library models typed DNS resource records, normalizes record names
//! against a zone apex, injects a built-in restrictive-email policy bundle,
//! and computes the operation plan (create/update, never delete) that makes
//! a remote zone match the desired configuration.

pub mod builder;
pub mod config;
pub mod error;
pub mod name;
pub mod reconcile;
pub mod record;
pub mod report;

pub use config::{Config, ZoneConfig};
pub use error::Error;
pub use record::Record;
