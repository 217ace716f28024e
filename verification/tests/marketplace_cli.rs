use grok_build::plugin::cli::configured_marketplace_git_source;
use grok_build::plugin::cli::{
    find_removal_source, marketplace_add_check, marketplace_add_name, marketplace_add_needs_probe,
    marketplace_add_url, marketplace_added_message, marketplace_already_configured,
    marketplace_list, marketplace_probe_failure, marketplace_removal_summary,
    marketplace_remove_input, marketplace_synced_line, marketplace_sync_error,
    marketplace_update_report, marketplace_update_targets, MarketplaceSource, RemovalKeys,
    SourceKind, UpdateReport,
};
use grok_build::plugin::names::MarketplaceAddInput;

fn git(name: &str, url: &str) -> MarketplaceSource {
    MarketplaceSource {
        name: name.into(),
        kind: SourceKind::Git {
            url: url.into(),
            branch: None,
        },
    }
}

fn local(name: &str, path: &str) -> MarketplaceSource {
    MarketplaceSource {
        name: name.into(),
        kind: SourceKind::Local { path: path.into() },
    }
}

fn keys(norm: &str, expanded: &str, local_input: Option<&str>) -> RemovalKeys {
    RemovalKeys {
        input_norm: norm.into(),
        expanded_norm: expanded.into(),
        local_input: local_input.map(|s| s.to_string()),
    }
}

#[test]
fn list_without_sources_points_at_add() {
    assert_eq!(
        marketplace_list(&vec![]),
        vec!["No marketplace sources configured.\nRun `grok plugin marketplace add --help` to get started.".to_string()]
    );
}

#[test]
fn list_prints_name_and_identity_per_source() {
    let sources = vec![git("A", "https://a.com/x.git"), local("B", "/tmp/b")];
    assert_eq!(
        marketplace_list(&sources),
        vec![
            "  A: https://a.com/x.git".to_string(),
            "  B: /tmp/b".to_string()
        ]
    );
}

#[test]
fn removal_prefers_an_exact_name() {
    let sources = vec![git("a", "https://a.com"), local("b", "/b")];
    let norms = vec!["a.com".to_string(), String::new()];
    assert_eq!(
        find_removal_source(&sources, "b", &keys("b", "b", None), &norms),
        Ok(1)
    );
}

#[test]
fn removal_refuses_a_shared_name() {
    let sources = vec![git("dup", "https://a.com"), local("dup", "/b")];
    let norms = vec!["a.com".to_string(), String::new()];
    assert_eq!(
        find_removal_source(&sources, "dup", &keys("dup", "dup", None), &norms),
        Err("Multiple sources are named \"dup\"; remove by URL/path instead: https://a.com, /b".to_string())
    );
}

#[test]
fn removal_matches_normalized_urls_and_paths() {
    let sources = vec![git("a", "https://github.com/o/r.git"), local("b", "/home/u/p")];
    let norms = vec!["github.com/o/r".to_string(), String::new()];
    assert_eq!(
        find_removal_source(&sources, "o/r", &keys("o/r", "github.com/o/r", None), &norms),
        Ok(0)
    );
    assert_eq!(
        find_removal_source(&sources, "~/p", &keys("~/p", "~/p", Some("/home/u/p")), &norms),
        Ok(1)
    );
}

#[test]
fn removal_not_found_lists_configured_sources() {
    let sources = vec![git("a", "https://a.com"), local("b", "/b")];
    let norms = vec!["a.com".to_string(), String::new()];
    assert_eq!(
        find_removal_source(&sources, "zzz", &keys("zzz", "zzz", None), &norms),
        Err("Marketplace source \"zzz\" not found. Configured sources: a, b".to_string())
    );
    assert_eq!(
        find_removal_source(&vec![], "zzz", &keys("zzz", "zzz", None), &vec![]),
        Err("Marketplace source \"zzz\" not found; no sources are configured.".to_string())
    );
}

#[test]
fn remove_input_and_summary() {
    assert_eq!(
        marketplace_remove_input("   "),
        Err("Provide the source name, git URL, or local path to remove.".to_string())
    );
    assert_eq!(marketplace_remove_input(" a "), Ok("a".to_string()));
    assert_eq!(
        marketplace_removal_summary("A", "https://a.com", &vec![]),
        "Removed marketplace source: A (https://a.com)"
    );
    assert_eq!(
        marketplace_removal_summary("A", "https://a.com", &vec!["k1".into(), "k2".into()]),
        "Removed marketplace source and uninstalled 2 plugin(s): k1, k2"
    );
}

#[test]
fn add_checks_run_in_order() {
    let local_input = MarketplaceAddInput::LocalPath("/nope".into());
    assert_eq!(
        marketplace_add_check(&local_input, false, &Some("blocked".into()), true),
        Err("Local marketplace path not found (or is not a directory): /nope".to_string())
    );
    let git_input = MarketplaceAddInput::GitUrl("https://a.com/x.git".into());
    assert_eq!(
        marketplace_add_check(&git_input, false, &Some("not allowed".into()), true),
        Err("Marketplace source blocked: not allowed".to_string())
    );
    assert_eq!(
        marketplace_add_check(&git_input, false, &None, true),
        Err("Marketplace source already configured: https://a.com/x.git".to_string())
    );
    assert_eq!(
        marketplace_add_check(&git_input, false, &None, false),
        Ok("https://a.com/x.git".to_string())
    );
    assert_eq!(marketplace_add_url("  "), Err("URL cannot be empty.".to_string()));
}

#[test]
fn add_dedups_by_normalized_url_or_exact_path() {
    let existing = vec![git("a", "https://github.com/o/r"), local("b", "/p")];
    let norms = vec!["github.com/o/r".to_string(), String::new()];
    let g = MarketplaceAddInput::GitUrl("git@github.com:o/r.git".into());
    assert!(marketplace_already_configured(&g, "github.com/o/r", &existing, &norms));
    assert!(!marketplace_already_configured(&g, "github.com/o/s", &existing, &norms));
    let l = MarketplaceAddInput::LocalPath("/p".into());
    assert!(marketplace_already_configured(&l, "", &existing, &norms));
}

#[test]
fn add_names_and_messages() {
    let g = MarketplaceAddInput::GitUrl("https://github.com/org/my-market.git".into());
    assert_eq!(marketplace_add_name(&g, false), "my-market");
    assert_eq!(marketplace_add_name(&g, true), "xAI Official");
    let l = MarketplaceAddInput::LocalPath("/a/b/plugins".into());
    assert_eq!(marketplace_add_name(&l, true), "plugins");
    assert!(marketplace_add_needs_probe(&g, false));
    assert!(!marketplace_add_needs_probe(&g, true));
    assert!(!marketplace_add_needs_probe(&l, false));
    assert_eq!(
        marketplace_added_message("m", "https://x"),
        "Added marketplace source: m (https://x)"
    );
    assert!(marketplace_probe_failure("boom", "u").starts_with("boom\nNot adding \"u\""));
}

#[test]
fn update_selects_git_sources_and_reports() {
    let sources = vec![git("a", "https://a"), local("b", "/b"), git("c", "https://c")];
    assert_eq!(marketplace_update_targets(&sources, None), (vec![0, 2], false));
    assert_eq!(marketplace_update_targets(&sources, Some("b")), (vec![], true));
    assert_eq!(marketplace_update_targets(&sources, Some("z")), (vec![], false));
    assert_eq!(marketplace_synced_line("a"), "  a: synced");
    assert_eq!(marketplace_sync_error("c", "down"), "c: down");
    match marketplace_update_report(Some("b"), true, 0, &vec![]) {
        Ok(UpdateReport::Stdout(t)) => assert_eq!(t, "Source \"b\" is local, nothing to sync."),
        _ => panic!("expected stdout"),
    }
    assert!(matches!(
        marketplace_update_report(Some("z"), false, 0, &vec![]),
        Err(e) if e == "Marketplace source \"z\" not found."
    ));
    match marketplace_update_report(None, false, 2, &vec![]) {
        Ok(UpdateReport::Stdout(t)) => assert_eq!(t, "Refreshed 2 source(s)."),
        _ => panic!("expected stdout"),
    }
    match marketplace_update_report(None, false, 1, &vec!["c: down".into(), "d: x".into()]) {
        Ok(UpdateReport::Stderr(t)) => {
            assert_eq!(t, "Refreshed 1 source(s) with 2 error(s): c: down; d: x")
        }
        _ => panic!("expected stderr"),
    }
}

#[test]
fn configured_git_source_finds_first_matching_url() {
    let sources = vec![
        MarketplaceSource {
            name: "local".into(),
            kind: SourceKind::Local {
                path: "https://example.com/m.git".into(),
            },
        },
        MarketplaceSource {
            name: "pinned".into(),
            kind: SourceKind::Git {
                url: "https://example.com/m.git".into(),
                branch: Some("stable".into()),
            },
        },
        git("second", "https://example.com/m.git"),
    ];
    assert_eq!(
        configured_marketplace_git_source(&sources, "https://example.com/m.git"),
        Some(("https://example.com/m.git".to_owned(), Some("stable".to_owned())))
    );
    assert_eq!(configured_marketplace_git_source(&sources, "https://example.com/other.git"), None);
}
