use grok_build::chatgpt::catalog::{
    astra_reasoning_efforts, catalog_entries, inject_synthetic_providers, insert_missing,
    merge_catalog, sol_reasoning_efforts, synthetic_auth_provider, synthetic_model_provider,
    AuthProviderSeed, ModelProviderSeed, ReasoningEffort,
};

fn values(v: &[grok_build::chatgpt::catalog::ReasoningEffortOption]) -> Vec<ReasoningEffort> {
    v.iter().map(|o| o.value).collect()
}

#[test]
fn catalog_seeds_astra_and_sol() {
    let entries = catalog_entries();
    let keys: Vec<&str> = entries.iter().map(|(k, _)| k.as_str()).collect();
    assert_eq!(keys, vec!["gpt-6-astra", "gpt-5.6-sol"]);
    let astra = &entries[0].1;
    assert_eq!(astra.name, "GPT-6 Astra");
    assert_eq!(astra.context_window, 272_000);
    assert_eq!(astra.model_family, "openai");
    assert_eq!(astra.base_url, "https://chatgpt.com/backend-api/codex");
    assert!(!astra.supports_backend_search);
    assert!(!astra.stream_tool_calls);
    assert_eq!(astra.reasoning_effort, ReasoningEffort::Medium);
    assert_eq!(astra.originator, "grok-build");
    assert_eq!(astra.auth_provider, "chatgpt");
    let sol = &entries[1].1;
    assert_eq!(sol.name, "GPT-5.6 Sol");
    assert_eq!(sol.context_window, 1_050_000);
    assert_eq!(
        values(&sol.reasoning_efforts),
        vec![
            ReasoningEffort::Max,
            ReasoningEffort::Xhigh,
            ReasoningEffort::High,
            ReasoningEffort::Medium,
            ReasoningEffort::Low,
        ]
    );
}

#[test]
fn astra_menu_has_no_none_and_medium_default() {
    let menu = astra_reasoning_efforts();
    assert_eq!(
        values(&menu),
        vec![
            ReasoningEffort::Xhigh,
            ReasoningEffort::High,
            ReasoningEffort::Medium,
            ReasoningEffort::Low,
        ]
    );
    let ids: Vec<&str> = menu.iter().map(|o| o.id.as_str()).collect();
    assert_eq!(ids, vec!["xhigh", "high", "medium", "low"]);
    assert_eq!(menu[0].label, "Extra High Effort");
    assert_eq!(menu[2].description.as_deref(), Some("Balanced reasoning (default)"));
    assert!(menu.iter().filter(|o| o.default).count() == 1 && menu[2].default);
    let sol = sol_reasoning_efforts();
    assert_eq!(sol[0].id, "max");
    assert!(sol[3].default);
}

#[test]
fn user_override_wins_on_catalog_seed() {
    let mut resolved = catalog_entries();
    resolved.retain(|(k, _)| k == "gpt-6-astra");
    resolved[0].1.name = "Custom Astra".to_owned();
    resolved[0].1.context_window = 100_000;
    merge_catalog(&mut resolved);
    assert_eq!(resolved.len(), 2);
    assert_eq!(resolved[0].1.name, "Custom Astra");
    assert_eq!(resolved[0].1.context_window, 100_000);
    assert_eq!(resolved[1].0, "gpt-5.6-sol");
}

#[test]
fn insert_missing_appends_in_order_and_skips_known_keys() {
    let mut entries = vec![("grok-4".to_owned(), 1), ("b".to_owned(), 2)];
    insert_missing(
        &mut entries,
        vec![("b".to_owned(), 20), ("c".to_owned(), 30), ("c".to_owned(), 31)],
    );
    assert_eq!(
        entries,
        vec![("grok-4".to_owned(), 1), ("b".to_owned(), 2), ("c".to_owned(), 30)]
    );
}

#[test]
fn synthetic_providers_do_not_replace_user_ones() {
    let auth = synthetic_auth_provider();
    assert_eq!(auth.command, "grok");
    assert_eq!(auth.args, vec!["chatgpt-token".to_owned()]);
    assert_eq!((auth.token_ttl_secs, auth.timeout_secs), (3300, 30));
    let model = synthetic_model_provider();
    assert_eq!(model.api_backend, "responses");

    let mut auths: Vec<(String, AuthProviderSeed)> = vec![(
        "chatgpt".to_owned(),
        AuthProviderSeed {
            command: "custom".to_owned(),
            args: vec![],
            token_ttl_secs: 1,
            timeout_secs: 1,
        },
    )];
    let mut models: Vec<(String, ModelProviderSeed)> = Vec::new();
    inject_synthetic_providers(&mut auths, &mut models);
    assert_eq!(auths.len(), 1);
    assert_eq!(auths[0].1.command, "custom");
    assert_eq!(models.len(), 1);
    assert_eq!(models[0].0, "chatgpt");
    assert_eq!(models[0].1.base_url, "https://chatgpt.com/backend-api/codex");
}

#[test]
fn catalog_survives_remote_prefetch_replace() {
    // A prefetch that replaced the default map with one grok entry.
    let mut grok = catalog_entries().remove(0);
    grok.0 = "grok-4".to_owned();
    grok.1.model = "grok-4".to_owned();
    grok.1.base_url = "https://api.x.ai/v1".to_owned();
    let mut prefetched = vec![grok];
    merge_catalog(&mut prefetched);
    let keys: Vec<&str> = prefetched.iter().map(|(k, _)| k.as_str()).collect();
    assert_eq!(keys, vec!["grok-4", "gpt-6-astra", "gpt-5.6-sol"]);
    assert_eq!(prefetched[0].1.base_url, "https://api.x.ai/v1");
    for (_, seed) in &prefetched[1..] {
        assert_eq!(seed.base_url, "https://chatgpt.com/backend-api/codex");
        assert_eq!(seed.auth_provider, "chatgpt");
    }
}
