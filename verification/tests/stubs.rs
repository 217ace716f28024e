use grok_build::stubs::session_memory::{memory_flush_command, memory_forget, memory_listing, memory_toggle_and_list, memory_v2_status, v2_capture_enabled, MemoryDisabledReason, MemoryFlushDisposition, MemoryForgetRejection, MemoryForgetResponse};
use grok_build::plugin::errors::MarketplaceInstallError;
use grok_build::stubs::external::{is_settings_gate_open, suppress_external_otel_until_settings, SettingsGate};
use grok_build::stubs::marketplace::{
    marketplace_require_sha,
    install_marketplace_plugin, is_official_source_url, load_marketplace_sources,
    resolve_marketplace_source_name, try_remove_source_from_json_files,
    uninstall_marketplace_source_plugins,
};
use grok_build::stubs::update::{
    apply_channel_switch, check_update_background, check_update_status, ensure_latest_on_disk,
    run_update, run_update_if_available, UpdateConfig, UpdateRunMode,
};

#[test]
fn update_status_reports_missing_updater() {
    let config = UpdateConfig::from_environment();
    assert_eq!(config.channel, "stable");
    let status = check_update_status("1.2.3", &config);
    assert_eq!(status.current_version, "1.2.3");
    assert!(!status.update_available);
    assert_eq!(status.latest_version, None);
    assert_eq!(status.auto_update, Some(false));
    assert_eq!(
        status.error.as_deref(),
        Some("auto-update support is not compiled into this build")
    );
}

#[test]
fn update_requests_do_nothing_or_fail_plainly() {
    let mut config = UpdateConfig::from_environment();
    assert_eq!(run_update_if_available(UpdateRunMode::Blocking, true, &config), Ok(false));
    let outcome = ensure_latest_on_disk(&config).unwrap();
    assert!(outcome.installed.is_none() && !outcome.relaunch_needed);
    let bg = check_update_background(&config);
    assert!(bg.update.is_none() && bg.download.is_none());
    apply_channel_switch(Some("beta"), &mut config);
    assert_eq!(config.channel, "stable");
    assert_eq!(
        run_update(false, None, Some("beta"), &mut config),
        Err("auto-update support is not compiled into this build (rebuild with --features auto-update)"
            .to_owned())
    );
}

#[test]
fn marketplace_is_absent_from_this_build() {
    assert!(load_marketplace_sources().is_empty());
    assert!(!marketplace_require_sha());
    assert!(!is_official_source_url("https://github.com/xai-org/plugin-marketplace.git"));
    assert!(uninstall_marketplace_source_plugins("https://example.com/m.git").is_empty());
    assert!(!try_remove_source_from_json_files("/tmp/m"));
    match install_marketplace_plugin("demo", None) {
        Err(MarketplaceInstallError::Other(m)) => {
            assert_eq!(m, "marketplace support is not compiled into this build")
        }
        _ => panic!("install must fail"),
    }
    assert!(matches!(
        resolve_marketplace_source_name("demo", Some("acme/market")),
        Err(MarketplaceInstallError::Other(_))
    ));
}

#[test]
fn settings_gate_closes_then_opens_after_window() {
    let mut gate = SettingsGate::new();
    assert!(is_settings_gate_open(&gate, 0));
    suppress_external_otel_until_settings(&mut gate, 1_000);
    assert!(!is_settings_gate_open(&gate, 1_000));
    assert!(!is_settings_gate_open(&gate, 30_999));
    assert!(is_settings_gate_open(&gate, 31_000));
}

#[test]
fn session_memory_commands_report_memory_off() {
    assert!(!v2_capture_enabled());
    assert_eq!(memory_v2_status(), "Memory is compiled out of this build.");
    let listing = memory_listing().ok().unwrap();
    assert!(listing.files.is_empty() && !listing.enabled && !listing.dream_enabled);
    assert_eq!(listing.disabled_reason, Some(MemoryDisabledReason::ProcessDisabled));
    let toggled = memory_toggle_and_list(true);
    assert!(!toggled.enabled);
    assert_eq!(toggled.message, "Memory is compiled out of this build.");
    assert!(toggled.listing.is_some());
    let flush = memory_flush_command();
    assert!(!flush.flushed && flush.through_turn.is_none());
    assert_eq!(flush.disposition, MemoryFlushDisposition::Disabled);
    let MemoryForgetResponse::Rejected { reason, message } = memory_forget("MEMORY.md", "abc");
    assert_eq!(reason, MemoryForgetRejection::MemoryDisabled);
    assert_eq!(message, "Memory is off for this session.");
}
