//! The external telemetry stream in builds without export, and its settings gate.

use vstd::prelude::*;
use crate::responses::model::{clone_opt, opt_view};

verus! {

/// Identity attributes (plain id strings); stored nowhere in this build.
pub struct IdentityAttrs {
    pub user_id: Option<String>,
    pub email: Option<String>,
    pub organization_id: Option<String>,
    pub team_id: Option<String>,
    pub deployment_id: Option<String>,
}

/// The account ids of a signed-in session's credentials.
pub struct CredentialSnapshot {
    pub user_id: Option<String>,
    pub organization_id: Option<String>,
    pub team_id: Option<String>,
    pub deployment_id: Option<String>,
}

impl IdentityAttrs {
    /// The ids of `snapshot`; the email is never taken.
    pub fn from_snapshot(snapshot: &CredentialSnapshot) -> (r: Self)
        ensures
            opt_view(r.user_id) == opt_view(snapshot.user_id),
            r.email is None,
            opt_view(r.organization_id) == opt_view(snapshot.organization_id),
            opt_view(r.team_id) == opt_view(snapshot.team_id),
            opt_view(r.deployment_id) == opt_view(snapshot.deployment_id),
    {
        IdentityAttrs {
            user_id: clone_opt(&snapshot.user_id),
            email: None,
            organization_id: clone_opt(&snapshot.organization_id),
            team_id: clone_opt(&snapshot.team_id),
            deployment_id: clone_opt(&snapshot.deployment_id),
        }
    }
}

/// Remote-settings policy (restrictive only).
#[derive(Clone, Copy, PartialEq, Eq, Structural, Debug)]
pub struct ExternalOtelRemotePolicy {
    pub force_disable: bool,
    pub lock_content_gates: bool,
}

/// Default bound on the fail-closed window, in milliseconds.
pub const DEFAULT_SETTINGS_GATE_MAX_WAIT_MS: u64 = 30000;

/// The settings gate: closed until settings resolve, but never longer than
/// its bounded window.
pub struct SettingsGate {
    pub resolved: bool,
    pub max_wait_ms: u64,
    /// Process uptime at the last closing.
    pub closed_at_ms: u64,
}

impl SettingsGate {
    /// State at process start: open, with the default window.
    pub fn new() -> (r: Self)
        ensures
            r.resolved,
            r.max_wait_ms == DEFAULT_SETTINGS_GATE_MAX_WAIT_MS,
            r.closed_at_ms == 0,
    {
        SettingsGate {
            resolved: true,
            max_wait_ms: DEFAULT_SETTINGS_GATE_MAX_WAIT_MS,
            closed_at_ms: 0,
        }
    }
}

/// Open at `now_ms`: settings resolved, or the window since the closing
/// has passed.
pub open spec fn gate_open(g: SettingsGate, now_ms: u64) -> bool {
    g.resolved || (if now_ms > g.closed_at_ms {
        now_ms - g.closed_at_ms
    } else {
        0
    }) >= g.max_wait_ms
}

/// Set the bound on the fail-closed window (saturating at `u64::MAX`
/// milliseconds).
pub fn set_settings_gate_max_wait(gate: &mut SettingsGate, max_wait_ms: u128)
    ensures
        final(gate).max_wait_ms == (if max_wait_ms > u64::MAX as u128 {
            u64::MAX as int
        } else {
            max_wait_ms as int
        }),
        final(gate).resolved == old(gate).resolved,
        final(gate).closed_at_ms == old(gate).closed_at_ms,
{
    gate.max_wait_ms = if max_wait_ms > u64::MAX as u128 {
        u64::MAX
    } else {
        max_wait_ms as u64
    };
}

/// The current bound on the fail-closed window, in milliseconds.
pub fn settings_gate_max_wait(gate: &SettingsGate) -> (r: u64)
    ensures
        r == gate.max_wait_ms,
{
    gate.max_wait_ms
}

/// Close the settings gate at `now_ms`.
pub fn suppress_external_otel_until_settings(gate: &mut SettingsGate, now_ms: u64)
    ensures
        !final(gate).resolved,
        final(gate).closed_at_ms == now_ms,
        final(gate).max_wait_ms == old(gate).max_wait_ms,
{
    gate.closed_at_ms = now_ms;
    gate.resolved = false;
}

/// Open the settings gate.
pub fn mark_external_otel_settings_resolved(gate: &mut SettingsGate)
    ensures
        final(gate).resolved,
        final(gate).closed_at_ms == old(gate).closed_at_ms,
        final(gate).max_wait_ms == old(gate).max_wait_ms,
{
    gate.resolved = true;
}

/// Read the settings gate at `now_ms`.
pub fn is_settings_gate_open(gate: &SettingsGate, now_ms: u64) -> (r: bool)
    ensures
        r == gate_open(*gate, now_ms),
{
    if gate.resolved {
        return true;
    }
    let waited = now_ms.saturating_sub(gate.closed_at_ms);
    waited >= gate.max_wait_ms
}

/// Once settings resolve, every later reading is open.
pub proof fn lemma_resolved_gate_open(g: SettingsGate, now_ms: u64)
    requires
        g.resolved,
    ensures
        gate_open(g, now_ms),
{
}

/// A gate closed at `t` stays closed before its window passes, and opens
/// once it has, until settings resolve.
pub proof fn lemma_closed_gate_window(g: SettingsGate, now_ms: u64)
    requires
        !g.resolved,
        now_ms >= g.closed_at_ms,
    ensures
        gate_open(g, now_ms) <==> now_ms - g.closed_at_ms >= g.max_wait_ms,
{
}

/// Initialize the external stream; nothing to start in this build.
pub fn init() {
}

/// The stream is never active in this build.
pub fn is_active() -> (r: bool)
    ensures
        !r,
{
    false
}

/// Emit one event; nothing is emitted in this build.
pub fn emit() {
}

/// Update identity attributes; ignored in this build.
pub fn set_identity(attrs: IdentityAttrs) {
}

/// Apply remote policy; ignored in this build.
pub fn apply_remote_policy(policy: ExternalOtelRemotePolicy) {
}

/// Flush providers; nothing to flush.
pub fn flush() {
}

/// Shut providers down; nothing to shut down.
pub fn shutdown() {
}

} // verus!
