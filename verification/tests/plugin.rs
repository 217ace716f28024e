use grok_build::plugin::errors::{
    repo_update_requires_reload, MarketplaceInstallError, RepoUpdateOutcome,
};
use grok_build::plugin::names::{
    classify_marketplace_add_input, name_from_path, name_from_url, normalize_git_url,
    MarketplaceAddInput,
};
use grok_build::plugin::toml_block::remove_toml_marketplace_block;

#[test]
fn normalize_github_shorthand() {
    assert_eq!(
        normalize_git_url("user/repo"),
        "https://github.com/user/repo.git"
    );
    // .git suffix not doubled
    assert_eq!(
        normalize_git_url("user/repo.git"),
        "https://github.com/user/repo.git"
    );
}

#[test]
fn classify_add_input_git_urls_and_shorthand() {
    let cwd = "/work";
    for input in [
        "user/repo",
        "https://github.com/user/repo.git",
        "git@github.com:user/repo.git",
        "https://example.com/plugins.git",
    ] {
        assert!(
            matches!(
                classify_marketplace_add_input(input, cwd),
                MarketplaceAddInput::GitUrl(_)
            ),
            "expected git classification for {input}"
        );
    }
    // Shorthand still normalizes.
    assert_eq!(
        classify_marketplace_add_input("user/repo", cwd),
        MarketplaceAddInput::GitUrl("https://github.com/user/repo.git".into())
    );
}

#[test]
fn name_from_path_uses_last_component() {
    assert_eq!(name_from_path("/a/b/my-plugins"), "my-plugins");
    assert_eq!(name_from_path("/a/b/my-plugins/"), "my-plugins");
    assert_eq!(name_from_path("/"), "marketplace");
}

#[test]
fn name_from_url_extracts_last_segment() {
    assert_eq!(
        name_from_url("https://github.com/org/my-marketplace.git"),
        "my-marketplace"
    );
}

#[test]
fn name_from_url_edge_cases() {
    assert_eq!(name_from_url("https://github.com/org/repo/"), "repo");
    assert_eq!(name_from_url(""), "marketplace");
}

#[test]
fn update_requires_reload_for_changed_repo_updates_only() {
    assert!(repo_update_requires_reload(&RepoUpdateOutcome::Updated {
        repo_key: "git".into(),
        old_commit: Some("a".into()),
        new_commit: Some("b".into()),
    }));
    assert!(!repo_update_requires_reload(&RepoUpdateOutcome::LiveLocal {
        repo_key: "local".into(),
    }));
}

#[test]
fn remove_toml_selects_correct_entry() {
    let content = "[[marketplace.sources]]\nname = \"a\"\ngit = \"https://a.com\"\n\n\
                   [[marketplace.sources]]\nname = \"b\"\ngit = \"https://b.com\"\n";
    let new = remove_toml_marketplace_block(content, "https://a.com").unwrap();
    assert!(!new.contains("\"a\"") && new.contains("\"b\""), "{new}");
}

#[test]
fn remove_toml_no_match_returns_none() {
    let content = "[[marketplace.sources]]\nname = \"x\"\ngit = \"https://a.com\"\n";
    assert!(remove_toml_marketplace_block(content, "https://nope.com").is_none());
}

#[test]
fn remove_toml_cleans_empty_section() {
    let content = "[[marketplace.sources]]\nname = \"x\"\ngit = \"https://a.com\"\n";
    let new = remove_toml_marketplace_block(content, "https://a.com").unwrap();
    assert!(!new.contains("marketplace"), "{new}");
}

#[test]
fn remove_toml_preserves_sibling_keys_when_sources_empty() {
    let content = "[marketplace]\nofficial_marketplace_auto_installed = true\n\n\
                   [[marketplace.sources]]\nname = \"x\"\ngit = \"https://a.com\"\n";
    let new = remove_toml_marketplace_block(content, "https://a.com").unwrap();
    assert!(
        new.contains("official_marketplace_auto_installed"),
        "sticky flag must survive removing the last source: {new}"
    );
    assert!(
        !new.contains("[[marketplace.sources]]"),
        "empty sources array should be dropped: {new}"
    );
}

#[test]
fn unknown_qualifier_error_lists_registered_marketplaces() {
    let err = MarketplaceInstallError::UnknownQualifier {
        qualifier: "acme/repo".into(),
        registered: vec![
            "xAI Official (xai-org/plugin-marketplace)".into(),
            "Local Dev (local/local-dev)".into(),
        ],
    };
    let msg = err.message();
    assert!(msg.contains("Unknown marketplace \"acme/repo\""), "{msg}");
    assert!(
        msg.contains("  - xAI Official (xai-org/plugin-marketplace)"),
        "{msg}"
    );
    assert!(msg.contains("  - Local Dev (local/local-dev)"), "{msg}");
}

#[test]
fn ambiguous_qualifier_error_lists_source_names() {
    let err = MarketplaceInstallError::AmbiguousQualifier {
        qualifier: "xai-org/plugin-marketplace".into(),
        sources: vec!["Mirror A".into(), "Mirror B".into()],
    };
    let msg = err.message();
    assert!(msg.contains("cannot be distinguished by qualifier"), "{msg}");
    assert!(msg.contains("Rename or remove one"), "{msg}");
    assert!(msg.contains("  - Mirror A"), "{msg}");
    assert!(msg.contains("  - Mirror B"), "{msg}");
}

#[test]
fn name_not_found_error_hints_local_dir_and_add_source() {
    let err = MarketplaceInstallError::NameNotFound {
        name: "sentry".into(),
        skipped_sources: vec![],
    };
    let msg = err.message();
    assert!(msg.contains("grok plugin install ./sentry"), "{msg}");
    assert!(msg.contains("grok plugin marketplace add"), "{msg}");
    assert!(!msg.contains("could not be synced"), "{msg}");
}

#[test]
fn name_not_found_error_reports_skipped_sources() {
    let err = MarketplaceInstallError::NameNotFound {
        name: "sentry".into(),
        skipped_sources: vec!["Flaky Remote".into()],
    };
    let msg = err.message();
    assert!(
        msg.contains("could not be synced and were skipped: Flaky Remote"),
        "{msg}"
    );
}

#[test]
fn name_ambiguous_error_lists_candidates_and_pin_hint() {
    let err = MarketplaceInstallError::NameAmbiguous {
        name: "sentry".into(),
        candidates: vec!["xAI Official (pin: sentry@xai-org/plugin-marketplace)".into()],
    };
    let msg = err.message();
    assert!(
        msg.contains("Multiple marketplaces provide a plugin named \"sentry\""),
        "{msg}"
    );
    assert!(
        msg.contains("  - xAI Official (pin: sentry@xai-org/plugin-marketplace)"),
        "{msg}"
    );
    assert!(msg.contains("grok plugin install sentry@<qualifier>"), "{msg}");
}
