use grok_build::plugin::update::{collect_update_outcomes, RepoUpdateResult};
use grok_build::plugin::cli::{filter_sources_by_allowlist, MarketplaceSource, SourceKind};
use grok_build::plugin::errors::{PluginUpdateSelector, RepoUpdateOutcome, UpdateError};
use grok_build::plugin::install::{
    already_installed_outcome, installed_outcome, plugin_scope, provenance_for,
    uninstall_marketplace_source_plugins, InstalledRepoInfo, PluginScope,
};
use grok_build::plugin::update::{
    git_update_outcome, marketplace_update_outcome, update_plugins, update_plugins_by_selector,
    GitUpdateStatus, MarketplaceUpdateResult,
};

fn git(name: &str, url: &str) -> MarketplaceSource {
    MarketplaceSource {
        name: name.into(),
        kind: SourceKind::Git {
            url: url.into(),
            branch: None,
        },
    }
}

fn local(name: &str, path: &str) -> MarketplaceSource {
    MarketplaceSource {
        name: name.into(),
        kind: SourceKind::Local { path: path.into() },
    }
}

fn source_names(v: &[MarketplaceSource]) -> Vec<&str> {
    v.iter().map(|s| s.name.as_str()).collect()
}

#[test]
fn filter_sources_by_allowlist_drops_blocked_git_keeps_allowed_and_local() {
    let sources = vec![
        git("Allowed", "https://github.com/ok/repo.git"),
        git("Blocked", "https://github.com/bad/repo.git"),
        local("Local", "/tmp/p"),
    ];
    let filtered = filter_sources_by_allowlist(sources, true, &vec![true, false, false]);
    assert_eq!(source_names(&filtered), vec!["Allowed", "Local"]);
}

#[test]
fn filter_sources_by_allowlist_unrestricted_passes_everything() {
    let sources = vec![
        git("Any Git", "https://github.com/bad/repo.git"),
        local("Local", "/tmp/p"),
    ];
    let filtered = filter_sources_by_allowlist(sources, false, &vec![false, false]);
    assert_eq!(source_names(&filtered), vec!["Any Git", "Local"]);
}

#[test]
fn non_marketplace_local_update_remains_noop() {
    let (outcome, apply) = git_update_outcome("local", Ok(GitUpdateStatus::LiveLocal));
    assert!(matches!(outcome, RepoUpdateOutcome::LiveLocal { ref repo_key } if repo_key == "local"));
    assert!(!apply);
}

#[test]
fn update_selection_by_plugin_repo_or_all() {
    let all = vec!["k1".to_string(), "k2".to_string()];
    assert_eq!(update_plugins_by_selector(None, None, &all).ok(), Some(all.clone()));
    assert_eq!(
        update_plugins_by_selector(
            Some(PluginUpdateSelector::PluginName("p".into())),
            Some("k2".into()),
            &all
        )
        .ok(),
        Some(vec!["k2".to_string()])
    );
    assert!(matches!(
        update_plugins_by_selector(Some(PluginUpdateSelector::RepoKey("zz".into())), None, &all),
        Err(UpdateError::NotFound { ref name }) if name == "zz"
    ));
    assert!(matches!(
        update_plugins(Some("ghost"), None, &all),
        Err(UpdateError::NotFound { ref name }) if name == "ghost"
    ));
    assert_eq!(update_plugins(None, None, &all).ok(), Some(all));
}

#[test]
fn update_outcomes_follow_the_installer() {
    let changed = marketplace_update_outcome(
        "reg-key",
        Ok(MarketplaceUpdateResult {
            repo_key: "k".into(),
            changed: false,
            reinstalled: true,
            old_version: Some("1".into()),
            new_version: Some("2".into()),
        }),
    );
    assert!(matches!(changed, RepoUpdateOutcome::Updated { ref repo_key, .. } if repo_key == "k"));
    let same = marketplace_update_outcome(
        "reg-key",
        Ok(MarketplaceUpdateResult {
            repo_key: "k".into(),
            changed: false,
            reinstalled: false,
            old_version: None,
            new_version: None,
        }),
    );
    assert!(matches!(same, RepoUpdateOutcome::AlreadyUpToDate { .. }));
    let failed = marketplace_update_outcome("reg-key", Err("boom".into()));
    assert!(matches!(failed, RepoUpdateOutcome::Failed { ref repo_key, ref error } if repo_key == "reg-key" && error == "boom"));
    let (moved, apply) = git_update_outcome(
        "g",
        Ok(GitUpdateStatus::Updated {
            changed: true,
            old_commit: Some("a".into()),
            new_commit: Some("b".into()),
        }),
    );
    assert!(apply);
    assert!(matches!(moved, RepoUpdateOutcome::Updated { ref new_commit, .. } if new_commit.as_deref() == Some("b")));
    let (pinned, apply) = git_update_outcome("g", Ok(GitUpdateStatus::Pinned { ref_name: "v1".into() }));
    assert!(!apply);
    assert!(matches!(pinned, RepoUpdateOutcome::Pinned { ref ref_name, .. } if ref_name == "v1"));
}

#[test]
fn removing_a_source_uninstalls_only_its_repos() {
    let repos = vec![
        InstalledRepoInfo {
            key: "a".into(),
            path: "/home/u/.grok/plugins/a".into(),
            marketplace_source: Some("https://x".into()),
        },
        InstalledRepoInfo {
            key: "b".into(),
            path: "/opt/b".into(),
            marketplace_source: None,
        },
        InstalledRepoInfo {
            key: "c".into(),
            path: "/opt/c".into(),
            marketplace_source: Some("https://x".into()),
        },
    ];
    assert_eq!(uninstall_marketplace_source_plugins("https://x", &repos), vec![0, 2]);
    assert_eq!(
        plugin_scope("/home/u/.grok/plugins/a", &Some("/home/u".into())),
        PluginScope::User
    );
    assert_eq!(plugin_scope("/home/u2/x", &Some("/home/u".into())), PluginScope::ConfigPath);
    assert_eq!(plugin_scope("/home/u/x", &None), PluginScope::ConfigPath);
}

#[test]
fn install_outcomes_carry_the_source() {
    let src = git("xAI Official", "https://github.com/xai-org/plugin-marketplace.git");
    let done = already_installed_outcome(&src, "plugins/demo".into(), "k".into(), vec!["demo".into()]);
    assert!(done.already_installed && done.source_is_git && done.warnings.is_empty());
    assert_eq!(done.source_display_name, "xAI Official");
    let fresh = installed_outcome(
        &local("Local Dev", "/m"),
        "plugins/demo".into(),
        "k".into(),
        vec!["demo".into()],
        vec!["w".into()],
    );
    assert!(!fresh.already_installed && !fresh.source_is_git);
    assert_eq!(fresh.warnings, vec!["w".to_string()]);
    let p = provenance_for(&local("Local Dev", "/m"), "plugins/demo");
    assert_eq!(p.source_url_or_path, "/m");
    assert_eq!(p.plugin_subdir, "plugins/demo");
}

use grok_build::plugin::errors::UninstallError;
use grok_build::plugin::install::{uninstall_cleanup_scope, uninstall_plugin};
use grok_build::plugin::update::{find_scanned_entry, marketplace_root_for_provenance, ProvenanceRoot};

#[test]
fn uninstall_needs_confirmation_for_shared_repos() {
    assert!(matches!(
        uninstall_plugin("x", None, false),
        Err(UninstallError::NotFound { ref name }) if name == "x"
    ));
    match uninstall_plugin("a", Some(("repo".into(), vec!["a".into(), "b".into(), "c".into()])), false) {
        Err(UninstallError::NeedsConfirm { name, repo_key, other_plugins, total }) => {
            assert_eq!(name, "a");
            assert_eq!(repo_key, "repo");
            assert_eq!(other_plugins, vec!["b".to_string(), "c".to_string()]);
            assert_eq!(total, 3);
            let msg = UninstallError::NeedsConfirm { name, repo_key, other_plugins, total }.message();
            assert!(msg.contains("Uninstalling will remove all 3 plugin(s)."), "{msg}");
        }
        _ => panic!("expected a confirmation request"),
    }
    let done = uninstall_plugin("a", Some(("repo".into(), vec!["a".into(), "b".into()])), true)
        .ok()
        .unwrap();
    assert_eq!(done.removed_plugins, vec!["a".to_string(), "b".to_string()]);
    assert_eq!(uninstall_cleanup_scope("/home/u/p", &Some("/home/u".into()), true), None);
    assert_eq!(
        uninstall_cleanup_scope("/home/u/p", &Some("/home/u".into()), false),
        Some(PluginScope::User)
    );
}

#[test]
fn provenance_roots_prefer_configured_git_sources() {
    let configured = vec![
        local("L", "/m"),
        MarketplaceSource {
            name: "G".into(),
            kind: SourceKind::Git {
                url: "https://g/x.git".into(),
                branch: Some("main".into()),
            },
        },
    ];
    assert!(matches!(
        marketplace_root_for_provenance("https://g/x.git", &configured),
        ProvenanceRoot::ConfiguredGit { ref branch, .. } if branch.as_deref() == Some("main")
    ));
    assert!(matches!(
        marketplace_root_for_provenance("git@h:y.git", &configured),
        ProvenanceRoot::AdHocGit(_)
    ));
    assert!(matches!(
        marketplace_root_for_provenance("/m", &configured),
        ProvenanceRoot::Local(ref p) if p == "/m"
    ));
    assert_eq!(
        find_scanned_entry(&vec!["plugins/a".into(), "plugins/b".into()], "plugins/b"),
        Some(1)
    );
    assert_eq!(find_scanned_entry(&vec![], "plugins/b"), None);
}

#[test]
fn update_run_gives_one_outcome_per_repo_and_saves_once() {
    let keys = vec!["market".to_owned(), "git".to_owned(), "pinned".to_owned(), "broken".to_owned()];
    let results = vec![
        RepoUpdateResult::Marketplace(Ok(MarketplaceUpdateResult {
            repo_key: "market-new".into(),
            changed: false,
            reinstalled: true,
            old_version: Some("1".into()),
            new_version: Some("2".into()),
        })),
        RepoUpdateResult::Git(Ok(GitUpdateStatus::Updated {
            changed: true,
            old_commit: Some("a".into()),
            new_commit: Some("b".into()),
        })),
        RepoUpdateResult::Git(Ok(GitUpdateStatus::Pinned { ref_name: "v1".into() })),
        RepoUpdateResult::Git(Err("offline".into())),
    ];
    let run = collect_update_outcomes(&keys, results);
    assert_eq!(run.outcomes.len(), 4);
    assert!(matches!(&run.outcomes[0], RepoUpdateOutcome::Updated { repo_key, .. } if repo_key == "market-new"));
    assert!(matches!(&run.outcomes[1], RepoUpdateOutcome::Updated { repo_key, new_commit: Some(c), .. } if repo_key == "git" && c == "b"));
    assert!(matches!(&run.outcomes[2], RepoUpdateOutcome::Pinned { repo_key, ref_name } if repo_key == "pinned" && ref_name == "v1"));
    assert!(matches!(&run.outcomes[3], RepoUpdateOutcome::Failed { repo_key, error } if repo_key == "broken" && error == "offline"));
    assert_eq!(run.registry_commits, vec![1]);
    assert!(run.save_registry);
}
