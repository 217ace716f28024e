use grok_build::plugin::errors::{
    classify_install_error, InstallError, InstallErrorKind, MarketplaceInstallError,
};
use grok_build::plugin::names::{classify_marketplace_add_input, MarketplaceAddInput};
use grok_build::plugin::plan::{
    candidate_label, collect_scans, map_qualifier_resolve_error, plan_bare, plan_qualified,
    registered_source_label, resolve_qualified_source_name, BareNameError, BareSelection,
    QualifierResolveError, SourceInfo,
};
use grok_build::plugin::toml_block::remove_toml_marketplace_block;

/// A registered source, with the qualifier the marketplace crate derives
/// for it.
fn source(name: &str, qualifier: &str, official: bool) -> SourceInfo {
    SourceInfo {
        name: name.into(),
        qualifier: qualifier.into(),
        official,
    }
}

fn official() -> SourceInfo {
    source("xAI Official", "xai-org/plugin-marketplace", true)
}

fn local_dev() -> SourceInfo {
    source("Local Dev", "local/local-dev", false)
}

fn entries(names: &[&str]) -> Result<Vec<String>, String> {
    Ok(names.iter().map(|n| n.to_string()).collect())
}

fn install_error(kind: InstallErrorKind) -> InstallError {
    InstallError {
        kind,
        text: "x".into(),
    }
}

#[test]
fn classify_add_input_local_paths() {
    let cwd = "/work";
    assert_eq!(
        classify_marketplace_add_input("/abs/plugins", cwd),
        MarketplaceAddInput::LocalPath("/abs/plugins".into())
    );
    assert_eq!(
        classify_marketplace_add_input("./plugins", cwd),
        MarketplaceAddInput::LocalPath("/work/plugins".into())
    );
    assert_eq!(
        classify_marketplace_add_input("../plugins", cwd),
        MarketplaceAddInput::LocalPath("/work/../plugins".into())
    );
    if let Some(home) = dirs::home_dir() {
        assert_eq!(
            classify_marketplace_add_input("~/plugins", cwd),
            MarketplaceAddInput::LocalPath(home.join("plugins").display().to_string())
        );
    }
    assert!(matches!(
        classify_marketplace_add_input("C:\\plugins", cwd),
        MarketplaceAddInput::LocalPath(_)
    ));
}

#[test]
fn classify_error_strings_match_canonical() {
    for (kind, expected) in [
        (InstallErrorKind::AlreadyInstalled, "already_installed"),
        (InstallErrorKind::Io, "io"),
        (InstallErrorKind::Json, "json"),
        (InstallErrorKind::PluginNotFound, "not_found"),
        (InstallErrorKind::ShaMismatch, "sha_mismatch"),
        (InstallErrorKind::UnpinnedRemoteRefused, "unpinned_remote_refused"),
        (InstallErrorKind::InstallFailed, "install_failed"),
    ] {
        assert_eq!(classify_install_error(&install_error(kind)), expected);
    }
}

#[test]
fn remove_toml_matches_tilde_path_entry_by_expanded_identity() {
    let Some(home) = dirs::home_dir() else {
        return;
    };
    let content = "[[marketplace.sources]]\nname = \"dev\"\npath = \"~/dev/plugins\"\n";
    let identity = home.join("dev/plugins").display().to_string();
    let new = remove_toml_marketplace_block(content, &identity).unwrap();
    assert!(!new.contains("dev/plugins"), "{new}");
}

#[test]
fn registered_source_label_uses_addressable_qualifier() {
    assert_eq!(
        registered_source_label(&official()),
        "xAI Official (xai-org/plugin-marketplace)"
    );
    assert_eq!(
        registered_source_label(&local_dev()),
        "Local Dev (local/local-dev)"
    );
}

#[test]
fn registered_source_label_uses_git_slug_for_non_github_git() {
    assert_eq!(
        registered_source_label(&source("Internal", "git/internal", false)),
        "Internal (git/internal)"
    );
}

#[test]
fn candidate_label_includes_pin_hint() {
    assert_eq!(
        candidate_label(&official(), "sentry"),
        "xAI Official (pin: sentry@xai-org/plugin-marketplace)"
    );
    assert_eq!(
        candidate_label(&local_dev(), "sentry"),
        "Local Dev (pin: sentry@local/local-dev)"
    );
}

#[test]
fn marketplace_install_error_category_matches_variant() {
    let cases: Vec<(MarketplaceInstallError, &str)> = vec![
        (
            MarketplaceInstallError::UnknownQualifier {
                qualifier: "x".into(),
                registered: vec![],
            },
            "unknown_marketplace",
        ),
        (
            MarketplaceInstallError::AmbiguousQualifier {
                qualifier: "x".into(),
                sources: vec![],
            },
            "ambiguous_marketplace",
        ),
        (
            MarketplaceInstallError::QualifiedNameNotFound {
                name: "x".into(),
                source_display: "s".into(),
            },
            "not_found",
        ),
        (
            MarketplaceInstallError::NameNotFound {
                name: "x".into(),
                skipped_sources: vec![],
            },
            "not_found",
        ),
        (
            MarketplaceInstallError::NameAmbiguous {
                name: "x".into(),
                candidates: vec![],
            },
            "ambiguous_plugin",
        ),
        (
            MarketplaceInstallError::PartialScan {
                name: "x".into(),
                skipped_sources: vec![],
            },
            "partial_scan",
        ),
        (
            MarketplaceInstallError::Sync {
                source_display: "s".into(),
                detail: "d".into(),
            },
            "sync_failed",
        ),
        (
            MarketplaceInstallError::Install(install_error(InstallErrorKind::PluginNotFound)),
            "not_found",
        ),
    ];
    for (err, expected) in cases {
        assert_eq!(err.category(), expected);
    }
}

#[test]
fn plan_install_qualifier_unknown_lists_registered_labels() {
    let sources = vec![official(), local_dev()];
    let err = map_qualifier_resolve_error("acme/repo", &sources, &QualifierResolveError::Unknown);
    match err {
        MarketplaceInstallError::UnknownQualifier {
            qualifier,
            registered,
        } => {
            assert_eq!(qualifier, "acme/repo");
            assert_eq!(
                registered,
                vec![
                    "xAI Official (xai-org/plugin-marketplace)".to_string(),
                    "Local Dev (local/local-dev)".to_string(),
                ]
            );
        }
        _ => panic!("expected UnknownQualifier"),
    }
}

#[test]
fn plan_install_qualifier_ambiguous_lists_source_names() {
    let sources = vec![
        source("Mirror A", "xai-org/plugin-marketplace", true),
        source("Mirror B", "xai-org/plugin-marketplace", true),
    ];
    let err = map_qualifier_resolve_error(
        "xai-org/plugin-marketplace",
        &sources,
        &QualifierResolveError::Ambiguous(vec![0, 1]),
    );
    match err {
        MarketplaceInstallError::AmbiguousQualifier { qualifier, sources } => {
            assert_eq!(qualifier, "xai-org/plugin-marketplace");
            assert_eq!(sources, vec!["Mirror A".to_string(), "Mirror B".to_string()]);
        }
        _ => panic!("expected AmbiguousQualifier"),
    }
}

#[test]
fn plan_install_qualifier_not_found_when_scan_lacks_name() {
    let sources = vec![official()];
    let err = plan_qualified(&sources, "sentry", 0, &entries(&["other"]))
        .err()
        .expect("source has no plugin named sentry");
    match err {
        MarketplaceInstallError::QualifiedNameNotFound {
            name,
            source_display,
        } => {
            assert_eq!(name, "sentry");
            assert_eq!(source_display, "xAI Official");
        }
        _ => panic!("expected QualifiedNameNotFound"),
    }
}

#[test]
fn plan_install_qualifier_sync_failure_is_hard_error() {
    let sources = vec![official()];
    let err = plan_qualified(&sources, "sentry", 0, &Err("network down".to_string()))
        .err()
        .expect("sync failed");
    match err {
        MarketplaceInstallError::Sync {
            source_display,
            detail,
        } => {
            assert_eq!(source_display, "xAI Official");
            assert_eq!(detail, "network down");
        }
        _ => panic!("expected Sync"),
    }
}

#[test]
fn plan_install_qualifier_ok_selects_source_and_entry() {
    let sources = vec![local_dev(), official()];
    let plan = plan_qualified(&sources, "SeNtRy", 1, &entries(&["sentry"]))
        .ok()
        .expect("resolves the official source");
    assert_eq!(plan.source_index, 1);
    assert_eq!(plan.entry_index, 0);
    assert!(plan.other_copies_note.is_none());
    assert!(plan.skipped_sources.is_empty());
}

#[test]
fn plan_install_bare_name_ambiguous_lists_candidate_labels() {
    let sources = vec![
        source("Third A", "acme/a", false),
        source("Third B", "acme/b", false),
    ];
    let scans = vec![entries(&["sentry"]), entries(&["sentry"])];
    let scanned = collect_scans(&sources, &scans);
    let err = plan_bare(
        &sources,
        "sentry",
        &scanned,
        &Err(BareNameError::Ambiguous(vec![0, 1])),
    )
    .err()
    .expect("two non-official sources provide sentry");
    match err {
        MarketplaceInstallError::NameAmbiguous { name, candidates } => {
            assert_eq!(name, "sentry");
            assert_eq!(
                candidates,
                vec![
                    "Third A (pin: sentry@acme/a)".to_string(),
                    "Third B (pin: sentry@acme/b)".to_string(),
                ]
            );
        }
        _ => panic!("expected NameAmbiguous"),
    }
}

#[test]
fn plan_install_bare_name_official_priority_selects_official_and_sets_note() {
    let sources = vec![source("Third Party", "acme/x", false), official()];
    let scans = vec![entries(&["sentry"]), entries(&["sentry"])];
    let scanned = collect_scans(&sources, &scans);
    let plan = plan_bare(
        &sources,
        "sentry",
        &scanned,
        &Ok(BareSelection {
            chosen: 1,
            other_count: 1,
        }),
    )
    .ok()
    .expect("official source wins the tie");
    assert_eq!(plan.source_index, 1);
    assert_eq!(plan.entry_index, 0);
    let note = plan
        .other_copies_note
        .expect("note set when other copies exist");
    assert!(note.contains("also available from 1 other"), "{note}");
    assert!(note.contains("sentry@<qualifier>"), "{note}");
}

#[test]
fn plan_install_bare_name_partial_scan_when_only_source_skipped() {
    let sources = vec![source("Flaky Remote", "acme/x", false)];
    let scans = vec![Err("boom".to_string())];
    let scanned = collect_scans(&sources, &scans);
    let err = plan_bare(&sources, "sentry", &scanned, &Err(BareNameError::NotFound))
        .err()
        .expect("only source failed to sync");
    match err {
        MarketplaceInstallError::PartialScan {
            name,
            skipped_sources,
        } => {
            assert_eq!(name, "sentry");
            assert_eq!(skipped_sources, vec!["Flaky Remote".to_string()]);
        }
        _ => panic!("expected PartialScan"),
    }
}

#[test]
fn plan_install_bare_name_skip_blocks_non_official_selection() {
    let sources = vec![
        source("Flaky Remote", "acme/a", false),
        source("Good Remote", "acme/b", false),
    ];
    let scans = vec![Err("sync failed".to_string()), entries(&["sentry"])];
    let scanned = collect_scans(&sources, &scans);
    let err = plan_bare(
        &sources,
        "sentry",
        &scanned,
        &Ok(BareSelection {
            chosen: 0,
            other_count: 0,
        }),
    )
    .err()
    .expect("a skipped source must block selecting a non-official match");
    match err {
        MarketplaceInstallError::PartialScan {
            name,
            skipped_sources,
        } => {
            assert_eq!(name, "sentry");
            assert_eq!(skipped_sources, vec!["Flaky Remote".to_string()]);
        }
        _ => panic!("expected PartialScan"),
    }
}

#[test]
fn plan_install_bare_name_official_match_proceeds_despite_skip() {
    let sources = vec![official(), source("Flaky Remote", "acme/a", false)];
    let scans = vec![entries(&["sentry"]), Err("sync failed".to_string())];
    let scanned = collect_scans(&sources, &scans);
    let plan = plan_bare(
        &sources,
        "sentry",
        &scanned,
        &Ok(BareSelection {
            chosen: 0,
            other_count: 0,
        }),
    )
    .ok()
    .expect("official match is decisive even when another source is skipped");
    assert_eq!(plan.source_index, 0);
    assert_eq!(plan.entry_index, 0);
    assert_eq!(plan.skipped_sources, vec!["Flaky Remote".to_string()]);
}

#[test]
fn plan_install_bare_name_local_winner_with_skip_is_partial_scan() {
    let sources = vec![local_dev(), source("Flaky Remote", "acme/a", false)];
    let scans = vec![entries(&["sentry"]), Err("sync failed".to_string())];
    let scanned = collect_scans(&sources, &scans);
    let err = plan_bare(
        &sources,
        "sentry",
        &scanned,
        &Ok(BareSelection {
            chosen: 0,
            other_count: 0,
        }),
    )
    .err()
    .expect("a skipped source blocks a non-official local winner");
    match err {
        MarketplaceInstallError::PartialScan {
            name,
            skipped_sources,
        } => {
            assert_eq!(name, "sentry");
            assert_eq!(skipped_sources, vec!["Flaky Remote".to_string()]);
        }
        _ => panic!("expected PartialScan"),
    }
}

#[test]
fn plan_install_bare_name_ambiguous_with_skip_is_partial_scan() {
    let sources = vec![
        source("Third A", "acme/a", false),
        source("Third B", "acme/b", false),
        source("Flaky Remote", "acme/c", false),
    ];
    let scans = vec![
        entries(&["sentry"]),
        entries(&["sentry"]),
        Err("sync failed".to_string()),
    ];
    let scanned = collect_scans(&sources, &scans);
    let err = plan_bare(
        &sources,
        "sentry",
        &scanned,
        &Err(BareNameError::Ambiguous(vec![0, 1])),
    )
    .err()
    .expect("ambiguous matches under a partial scan must fail closed");
    match err {
        MarketplaceInstallError::PartialScan {
            name,
            skipped_sources,
        } => {
            assert_eq!(name, "sentry");
            assert_eq!(skipped_sources, vec!["Flaky Remote".to_string()]);
        }
        _ => panic!("expected PartialScan"),
    }
}

#[test]
fn resolve_qualified_source_name_with_matches_git_owner_repo() {
    let sources = vec![
        official(),
        source("Internal", "example/plugin-marketplace-internal", false),
    ];
    let name = resolve_qualified_source_name(&sources, "xai-org/plugin-marketplace", &Ok(0))
        .ok()
        .expect("qualifier should match the official source");
    assert_eq!(name, "xAI Official");
}

#[test]
fn resolve_qualified_source_name_with_matches_marketplace_name() {
    let sources = vec![source("internal-tools", "acme/internal-tools", false)];
    let name = resolve_qualified_source_name(&sources, "internal-tools", &Ok(0))
        .ok()
        .expect("marketplace name should resolve for a GitHub Enterprise source");
    assert_eq!(name, "internal-tools");
}

#[test]
fn resolve_qualified_source_name_with_unknown_qualifier_errors() {
    let sources = vec![official()];
    let err = resolve_qualified_source_name(
        &sources,
        "bogus/repo",
        &Err(QualifierResolveError::Unknown),
    )
    .err()
    .expect("unknown qualifier should error");
    assert!(matches!(
        err,
        MarketplaceInstallError::UnknownQualifier { .. }
    ));
}

// Scenarios of my own.

#[test]
fn bare_name_not_found_without_skips_hints_install_paths() {
    let sources = vec![official()];
    let scans = vec![entries(&["other"])];
    let scanned = collect_scans(&sources, &scans);
    let err = plan_bare(&sources, "sentry", &scanned, &Err(BareNameError::NotFound))
        .err()
        .expect("nothing provides sentry");
    let msg = err.message();
    assert!(msg.contains("grok plugin install ./sentry"), "{msg}");
}

#[test]
fn collect_scans_orders_entries_by_source_then_position() {
    let sources = vec![official(), source("B", "acme/b", false), local_dev()];
    let scans = vec![entries(&["a", "b"]), Err("x".to_string()), entries(&["c"])];
    let scanned = collect_scans(&sources, &scans);
    assert_eq!(scanned.owned, vec![(0, 0), (0, 1), (2, 0)]);
    assert_eq!(scanned.skipped, vec!["B".to_string()]);
}

use grok_build::plugin::json_sources::{json_source_matches, remove_source_from_json, JsonValue};

fn obj(members: Vec<(&str, JsonValue)>) -> JsonValue {
    JsonValue::Object(
        members
            .into_iter()
            .map(|(k, v)| (k.to_string(), v))
            .collect(),
    )
}

fn s(v: &str) -> JsonValue {
    JsonValue::Str(v.to_string())
}

#[test]
fn json_source_matches_with_git_normalization() {
    let config = obj(vec![(
        "source",
        obj(vec![
            ("source", s("git")),
            ("url", s("https://github.com/org/repo.git")),
        ]),
    )]);
    assert!(json_source_matches(&config, "https://github.com/org/repo.git"));
    assert!(json_source_matches(&config, "https://github.com/org/repo"));
    assert!(!json_source_matches(&config, "https://other.com"));
}

#[test]
fn json_source_matches_github_shorthand() {
    let config = obj(vec![(
        "source",
        obj(vec![("source", s("github")), ("repo", s("org/repo"))]),
    )]);
    assert!(json_source_matches(&config, "https://github.com/org/repo.git"));
}

#[test]
fn json_flat_local_source_matches_its_path_exactly() {
    let config = obj(vec![("source", s("local")), ("path", s("/tmp/p"))]);
    assert!(json_source_matches(&config, "/tmp/p"));
    assert!(!json_source_matches(&config, "/tmp/p/"));
}

#[test]
fn json_removal_takes_the_first_matching_entry_under_the_nested_key() {
    let root = obj(vec![
        ("theme", s("dark")),
        (
            "extraKnownMarketplaces",
            obj(vec![
                (
                    "a",
                    obj(vec![(
                        "source",
                        obj(vec![("source", s("git")), ("url", s("https://x.com/a.git"))]),
                    )]),
                ),
                (
                    "b",
                    obj(vec![(
                        "source",
                        obj(vec![("source", s("local")), ("path", s("/p"))]),
                    )]),
                ),
            ]),
        ),
    ]);
    let (new_root, key) =
        remove_source_from_json(root, Some("extraKnownMarketplaces"), "https://x.com/a").unwrap();
    assert_eq!(key, "a");
    let JsonValue::Object(outer) = new_root else {
        panic!("object expected")
    };
    assert_eq!(outer.len(), 2);
    assert_eq!(outer[0].0, "theme");
    let JsonValue::Object(inner) = &outer[1].1 else {
        panic!("nested object expected")
    };
    assert_eq!(inner.len(), 1);
    assert_eq!(inner[0].0, "b");
}

#[test]
fn json_removal_without_a_match_or_object_removes_nothing() {
    let root = obj(vec![("x", s("y"))]);
    assert!(remove_source_from_json(root, None, "/p").is_none());
    assert!(remove_source_from_json(JsonValue::Null, None, "/p").is_none());
    let root = obj(vec![("x", s("y"))]);
    assert!(remove_source_from_json(root, Some("extraKnownMarketplaces"), "/p").is_none());
}
