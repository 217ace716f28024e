//! Facades of optional subsystems in builds without them: types keep their
//! paths; operations do nothing or report that the feature is missing.

pub mod diag;
pub mod donate;
pub mod external;
pub mod foreign_sessions;
pub mod import;
pub mod lsp;
pub mod marketplace;
pub mod metrics;
pub mod otel;
pub mod s3;
pub mod sentry;
pub mod tracing;
pub mod update;
pub mod web_fetch;
pub mod session_memory;
