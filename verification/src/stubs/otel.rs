//! The OpenTelemetry layer in builds without export.

use vstd::prelude::*;
use super::external::shutdown;

verus! {

/// Static identity of the client emitting telemetry.
#[derive(Clone, Copy)]
pub struct OtelClientInfo {
    pub client_name: &'static str,
    pub client_version: &'static str,
    pub service_version: &'static str,
    pub app_entrypoint: &'static str,
}

/// Trace-export transport settings (unused in this build).
pub struct OtelExporterConfig {
    pub traces_url: String,
    pub extra_headers: Vec<(String, String)>,
    pub export_interval_ms: Option<u64>,
    pub timeout_ms: Option<u64>,
    pub enabled: bool,
}

/// Flush and shut down; also shuts down the external stream.
pub fn shutdown_otel() {
    shutdown();
}

/// Guard that shuts telemetry down when the host drops it.
pub struct OtelGuard;

/// Create an [`OtelGuard`].
pub fn otel_guard() -> (r: OtelGuard) {
    OtelGuard
}

} // verus!
