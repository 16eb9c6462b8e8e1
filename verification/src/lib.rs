//! Dynamic level filters: log-severity filters whose thresholds live in a
//! process-wide registry and can be changed at runtime by name.
//!
//! The crate is organised in three layers:
//! - [`severity`]: the totally ordered severity scale and its textual tokens;
//! - [`registry`]: the name-to-threshold table, its pure transition semantics,
//!   and a reader/writer-locked shared form of it;
//! - [`filter`]: the accept/reject decision rule and the named filter handles
//!   built on the registry.

pub mod filter;
pub mod registry;
pub mod severity;

pub use filter::ConfigError;
pub use filter::DynamicLevelFilter;
pub use filter::Response;
pub use registry::SharedRegistry;
pub use registry::ThresholdRegistry;
pub use severity::Severity;
