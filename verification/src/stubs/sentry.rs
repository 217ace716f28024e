//! Crash reporting in builds without it.

use vstd::prelude::*;

verus! {

/// Per-host crash-reporting configuration.
pub struct Config {
    pub client: &'static str,
    pub client_version: &'static str,
    pub release: &'static str,
    /// Reporting is off (always, in this build).
    pub disabled: bool,
}

/// Guard returned by [`init`].
pub struct ClientInitGuard;

/// Initialize crash reporting; nothing to start in this build.
pub fn init(config: Config) -> (r: ClientInitGuard) {
    ClientInitGuard
}

/// Flush in-flight crash reports; none in this build.
pub fn flush_on_shutdown() {
}

} // verus!
