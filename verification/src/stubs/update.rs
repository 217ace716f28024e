//! Auto-update in builds without it.

use vstd::prelude::*;
use vstd::string::*;
use crate::text::owned;

verus! {

/// Auto-update configuration.
pub struct UpdateConfig {
    pub proxy_base_url: String,
    pub auth_scope: String,
    pub deployment_key: Option<String>,
    pub alpha_test_key: Option<String>,
    pub channel: String,
    pub npm_registry: Option<String>,
}

impl UpdateConfig {
    /// The stable channel with nothing else configured.
    pub fn from_environment() -> (r: Self)
        ensures
            r.channel@ == "stable"@,
            r.proxy_base_url@.len() == 0,
            r.auth_scope@.len() == 0,
            r.deployment_key is None,
            r.alpha_test_key is None,
            r.npm_registry is None,
    {
        UpdateConfig {
            proxy_base_url: String::new(),
            auth_scope: String::new(),
            deployment_key: None,
            alpha_test_key: None,
            channel: owned("stable"),
            npm_registry: None,
        }
    }
}

/// No version policy to enforce in this build.
pub fn enforce_version_policy_or_exit() {
}

/// No channel label in this build.
pub fn channel_label() -> (r: &'static str)
    ensures
        r@.len() == 0,
{
    proof {
        reveal_strlit("");
    }
    ""
}

/// No channel name in this build.
pub fn channel_name() -> (r: Option<&'static str>)
    ensures
        r is None,
{
    None
}

#[derive(Clone, Copy, PartialEq, Eq, Structural, Debug)]
pub enum UpdateRunMode {
    Blocking,
    NonBlocking,
}

/// A newer version.
pub struct UpdateAvailable {
    pub latest_version: String,
}

/// Update status report.
pub struct UpdateStatus {
    pub current_version: String,
    pub latest_version: Option<String>,
    pub update_available: bool,
    pub installer: Option<String>,
    pub channel: String,
    pub auto_update: Option<bool>,
    pub error: Option<String>,
}

/// Outcome of making sure the newest version is installed.
pub struct EnsureLatestOutcome {
    pub installed: Option<String>,
    pub relaunch_needed: bool,
}

/// Result of a background update check.
pub struct BackgroundUpdateCheck {
    pub update: Option<UpdateAvailable>,
    /// Process id of a download in progress.
    pub download: Option<u32>,
}

/// Whether an update ran: never in this build.
pub fn run_update_if_available(mode: UpdateRunMode, interactive: bool, config: &UpdateConfig) -> (r: Result<
    bool,
    String,
>)
    ensures
        r == Ok::<bool, String>(false),
{
    Ok(false)
}

/// Nothing is installed and no relaunch is needed in this build.
pub fn ensure_latest_on_disk(config: &UpdateConfig) -> (r: Result<EnsureLatestOutcome, String>)
    ensures
        r matches Ok(o) && o.installed is None && !o.relaunch_needed,
{
    Ok(EnsureLatestOutcome { installed: None, relaunch_needed: false })
}

/// The background check finds no update and starts no download.
pub fn check_update_background(config: &UpdateConfig) -> (r: BackgroundUpdateCheck)
    ensures
        r.update is None,
        r.download is None,
{
    BackgroundUpdateCheck { update: None, download: None }
}

/// A channel switch does nothing in this build.
pub fn apply_channel_switch(channel_switch: Option<&str>, update_config: &mut UpdateConfig)
    ensures
        *final(update_config) == *old(update_config),
{
}

/// The message for any update request in this build.
pub open spec fn not_compiled_message() -> Seq<char> {
    "auto-update support is not compiled into this build (rebuild with --features auto-update)"@
}

/// The status of this build, `current_version` being its own version: no
/// newer version known, the stable channel, auto-update off, and the error
/// that update support is not compiled in.
pub fn check_update_status(current_version: &str, update_config: &UpdateConfig) -> (r: UpdateStatus)
    ensures
        r.current_version@ == current_version@,
        r.latest_version is None,
        !r.update_available,
        r.installer is None,
        r.channel@ == "stable"@,
        r.auto_update == Some(false),
        r.error matches Some(e) && e@ == "auto-update support is not compiled into this build"@,
{
    UpdateStatus {
        current_version: owned(current_version),
        latest_version: None,
        update_available: false,
        installer: None,
        channel: owned("stable"),
        auto_update: Some(false),
        error: Some(owned("auto-update support is not compiled into this build")),
    }
}

/// An explicit update request fails: support is not compiled in.
pub fn run_update(force_reinstall: bool, version: Option<&str>, channel_switch: Option<&str>, update_config: &mut UpdateConfig) -> (r:
    Result<Option<String>, String>)
    ensures
        r matches Err(m) && m@ == not_compiled_message(),
        *final(update_config) == *old(update_config),
{
    Err(owned("auto-update support is not compiled into this build (rebuild with --features auto-update)"))
}

} // verus!
