//! Trace, log and metric donation in builds without it.

use vstd::prelude::*;

verus! {

/// Span reporter that drops everything.
pub struct HubDonatingReporter;

/// Pump of donated traces; nothing to drain.
pub struct TraceDonationPump;

/// Sender of donated logs.
pub struct LogDonationSender;

/// Log layer that never forwards.
pub struct DonatingLogLayer;

impl DonatingLogLayer {
    /// An inert layer.
    pub fn new_inert() -> (r: Self) {
        DonatingLogLayer
    }

    /// Activation is ignored.
    pub fn activate(&self, sender: LogDonationSender) {
    }
}

/// Nothing to flush.
pub fn flush_log_layer() {
}

/// Pump of donated logs; nothing to drain.
pub struct LogDonationPump;

/// Pump of donated metrics; nothing to drain.
pub struct MetricDonationPump;

/// The tool server whose telemetry is donated.
pub struct ToolServer;

impl ToolServer {
    /// An inert trace reporter and its pump.
    pub fn trace_donation_reporter(&self, service_name: &str) -> (r: (HubDonatingReporter, TraceDonationPump)) {
        (HubDonatingReporter, TraceDonationPump)
    }

    /// An inert log sender and its pump.
    pub fn log_donation_layer(&self, service_name: &str) -> (r: (LogDonationSender, LogDonationPump)) {
        (LogDonationSender, LogDonationPump)
    }

    /// An inert metric pump.
    pub fn metric_donation_reporter(&self, service_name: &str) -> (r: MetricDonationPump) {
        MetricDonationPump
    }
}

} // verus!
