use grok_build::chatgpt::store::{clear_result, RemoveResult};
use grok_build::chatgpt::oauth::{device_interval, DeviceInterval};
use grok_build::chatgpt::oauth::parse_u64;
use base64::engine::general_purpose::URL_SAFE_NO_PAD;
use base64::Engine;
use grok_build::chatgpt::extras::{
    apply_extras_policy, attach_credentials, is_codex_backend_url, is_codex_model,
    stamp_sampler_config, AttachPlan, ExtrasConfig,
};
use grok_build::chatgpt::headers::inject_headers;
use grok_build::chatgpt::oauth::{
    account_id_from_jwt, authorize_url, device_poll_interval, device_poll_step, finish_refresh,
    freshness_plan, handle_callback, identity_label, require_unexpired, residency_from_jwt,
    tokens_to_auth, tokens_to_auth_preserving, DevicePoll, FreshPlan, TokenResponse,
};
use grok_build::chatgpt::quota::{
    check_identity, check_quota_credentials, fill_reset_at, identity, quota_http_error,
    stamp_provider,
};
use grok_build::chatgpt::store::{
    current_bearer, refresh_result, save_needs_write, serialize_token, validate_loaded,
    ChatgptAuth,
};

const CODEX_BASE_URL: &str = "https://chatgpt.com/backend-api/codex";
const NOW: i64 = 1_800_000_000;

fn jwt_from_payload(payload: &str) -> String {
    let header = URL_SAFE_NO_PAD.encode(br#"{"alg":"none","typ":"JWT"}"#);
    let body = URL_SAFE_NO_PAD.encode(payload.as_bytes());
    format!("{header}.{body}.sig")
}

fn cached_auth(expires_in: Option<i64>) -> ChatgptAuth {
    ChatgptAuth {
        access_token: "cached".to_owned(),
        refresh_token: None,
        expires_at: expires_in.map(|seconds| NOW + seconds),
        account_id: "account".to_owned(),
        id_token: None,
        residency: Some("us-west".to_owned()),
    }
}

fn tokens(access: &str, id_token: Option<String>, expires_in: Option<u64>) -> TokenResponse {
    TokenResponse {
        access_token: access.to_owned(),
        refresh_token: None,
        id_token,
        expires_in,
    }
}

#[test]
fn jwt_extracts_account_id_and_residency() {
    let token = jwt_from_payload(
        r#"{"chatgpt_account_id":"acct-nested","chatgpt_compute_residency":"us-west"}"#,
    );
    assert_eq!(account_id_from_jwt(&token).as_deref(), Some("acct-nested"));
    assert_eq!(residency_from_jwt(&token).as_deref(), Some("us-west"));
}

#[test]
fn jwt_extracts_namespaced_account_id() {
    let token =
        jwt_from_payload(r#"{"https://api.openai.com/auth":{"chatgpt_account_id":"acct-ns"}}"#);
    assert_eq!(account_id_from_jwt(&token).as_deref(), Some("acct-ns"));
}

#[test]
fn residency_no_constraint_is_none() {
    let token = jwt_from_payload(r#"{"chatgpt_compute_residency":"no_constraint"}"#);
    assert_eq!(residency_from_jwt(&token), None);
}

#[test]
fn residency_refresh_distinguishes_absent_and_explicit_clear() {
    let mut previous = cached_auth(None);
    previous.id_token = Some(jwt_from_payload(
        r#"{"chatgpt_compute_residency":"us-west"}"#,
    ));
    for (payload, expected) in [
        (r#"{}"#, Some("us-west")),
        (r#"{"chatgpt_compute_residency":"no_constraint"}"#, None),
        (r#"{"chatgpt_compute_residency":"eu"}"#, Some("eu")),
    ] {
        for from_id_token in [false, true] {
            let token = jwt_from_payload(payload);
            let auth = tokens_to_auth_preserving(
                TokenResponse {
                    access_token: if from_id_token {
                        "opaque".to_owned()
                    } else {
                        token.clone()
                    },
                    refresh_token: None,
                    id_token: from_id_token.then_some(token),
                    expires_in: None,
                },
                &previous,
                NOW,
            )
            .unwrap();
            assert_eq!(auth.residency.as_deref(), expected);
        }
    }
}

#[test]
fn codex_compatibility_requires_https_and_a_path_boundary() {
    for url in [
        "http://chatgpt.com/backend-api/codex",
        "https://chatgpt.com/backend-api/codex-other",
        "https://chatgpt.com.example.org/backend-api/codex",
        "https://example.org/backend-api/codex",
    ] {
        assert!(!is_codex_backend_url(url), "{url}");
    }
    assert!(is_codex_backend_url(
        "https://www.chatgpt.com/backend-api/codex/responses"
    ));
}

#[test]
fn extras_gate_proxy_vs_codex() {
    assert!(is_codex_backend_url(CODEX_BASE_URL));
    assert!(is_codex_backend_url(&format!("{CODEX_BASE_URL}/")));
    let mut codex: ExtrasConfig<u32, u64> = ExtrasConfig {
        base_url: CODEX_BASE_URL.to_string(),
        include_encrypted_reasoning: true,
        supports_backend_search: false,
        compactions_remaining: None,
        compaction_at_tokens: None,
        extra_response_includes: vec![],
        responses_system_as_instructions: false,
    };
    apply_extras_policy(&mut codex, false);
    assert!(codex.responses_system_as_instructions);
    assert!(!codex.include_encrypted_reasoning);
    let mut proxy: ExtrasConfig<u32, u64> = ExtrasConfig {
        base_url: "https://cli-chat-proxy.grok.com/v1".to_string(),
        include_encrypted_reasoning: false,
        supports_backend_search: false,
        compactions_remaining: None,
        compaction_at_tokens: None,
        extra_response_includes: vec![],
        responses_system_as_instructions: true,
    };
    apply_extras_policy(&mut proxy, true);
    assert!(!proxy.responses_system_as_instructions);
    assert!(proxy.include_encrypted_reasoning);
}

#[test]
fn custom_provider_capabilities_are_preserved() {
    let mut config: ExtrasConfig<u32, u64> = ExtrasConfig {
        base_url: "https://grok-proxy.acme.com/v1".to_owned(),
        supports_backend_search: true,
        compactions_remaining: Some(1),
        compaction_at_tokens: Some(100_000),
        include_encrypted_reasoning: true,
        responses_system_as_instructions: true,
        extra_response_includes: vec!["provider.custom".to_owned()],
    };
    apply_extras_policy(&mut config, false);
    assert!(config.supports_backend_search);
    assert!(config.compactions_remaining.is_some());
    assert!(config.compaction_at_tokens.is_some());
    assert!(config.include_encrypted_reasoning);
    assert!(config.responses_system_as_instructions);
    assert_eq!(config.extra_response_includes, ["provider.custom"]);

    config.base_url = CODEX_BASE_URL.to_owned();
    apply_extras_policy(&mut config, false);
    assert!(!config.supports_backend_search);
    assert!(config.compactions_remaining.is_none());
    assert!(config.compaction_at_tokens.is_none());
    assert!(!config.include_encrypted_reasoning);
    assert!(config.responses_system_as_instructions);
    assert!(config.extra_response_includes.is_empty());
}

#[test]
fn quota_provider_stamp_uses_backend_and_auth_not_openai_family() {
    for (url, grok_host, expected) in [
        ("https://api.openai.com/v1", false, "unsupported"),
        (CODEX_BASE_URL, false, "chatgpt"),
        ("https://api.x.ai/v1", true, "grok"),
    ] {
        assert_eq!(stamp_provider(is_codex_model(url, None), grok_host), expected);
    }
}

#[test]
fn token_serialization_distinguishes_expired_and_unknown_expiry() {
    let mut auth = ChatgptAuth {
        access_token: "token".into(),
        refresh_token: None,
        expires_at: None,
        account_id: "account".into(),
        id_token: None,
        residency: None,
    };
    assert_eq!(auth.expires_in_secs(NOW), None);
    let unknown = serialize_token(&auth, NOW);
    let output: serde_json::Value = serde_json::from_str(&unknown).unwrap();
    assert!(output.get("expires_in").is_none());
    assert_eq!(output["access_token"], "token");
    auth.expires_at = Some(NOW - 3600);
    assert_eq!(auth.expires_in_secs(NOW), Some(0));
    let expired = serialize_token(&auth, NOW);
    let output: serde_json::Value = serde_json::from_str(&expired).unwrap();
    assert_eq!(output["expires_in"], 0);
}

// Scenarios of my own.

#[test]
fn freshness_rejects_expired_without_refresh_but_not_unknown_expiry() {
    let skew = 60;
    assert!(matches!(
        freshness_plan(&cached_auth(Some(-1)), NOW, skew),
        FreshPlan::RequireUnexpired
    ));
    assert!(require_unexpired(cached_auth(Some(-1)), NOW).is_err());
    assert!(matches!(
        freshness_plan(&cached_auth(None), NOW, skew),
        FreshPlan::UseAsIs
    ));
    assert!(require_unexpired(cached_auth(Some(30)), NOW).is_ok());
    let mut with_refresh = cached_auth(Some(30));
    with_refresh.refresh_token = Some("refresh".into());
    match freshness_plan(&with_refresh, NOW, skew) {
        FreshPlan::Refresh(t) => assert_eq!(t, "refresh"),
        _ => panic!("expected a refresh"),
    }
}

#[test]
fn refresh_failure_only_allows_still_valid_credentials() {
    for (expiry, allowed) in [(-1, false), (30, true)] {
        let result = finish_refresh(cached_auth(Some(expiry)), Err("unavailable".into()), NOW);
        assert_eq!(result.is_ok(), allowed);
    }
}

#[test]
fn refresh_success_replaces_expired_credentials() {
    let refreshed = finish_refresh(
        cached_auth(Some(-1)),
        Ok(tokens("new", None, Some(3600))),
        NOW,
    )
    .unwrap();
    assert_eq!(refreshed.access_token, "new");
    assert_eq!(refreshed.expires_at, Some(NOW + 3600));
    assert!(!refreshed.needs_refresh(NOW, 60));
    assert_eq!(refreshed.account_id, "account");
    assert_eq!(refreshed.residency.as_deref(), Some("us-west"));
}

#[test]
fn invalid_refresh_response_cannot_rescue_expired_credentials() {
    for access_token in ["", "replacement"] {
        let result = finish_refresh(
            cached_auth(Some(-1)),
            Ok(tokens(access_token, None, Some(0))),
            NOW,
        );
        assert!(result.is_err());
    }
}

#[test]
fn token_response_without_access_token_is_refused() {
    assert_eq!(
        tokens_to_auth(tokens("  ", None, None), NOW).err().as_deref(),
        Some("ChatGPT token response missing access_token")
    );
}

#[test]
fn identity_label_prefers_email_then_account() {
    let mut auth = cached_auth(None);
    auth.id_token = Some(jwt_from_payload(r#"{"email":"me@example.com"}"#));
    assert_eq!(identity_label(&auth), "me@example.com");
    auth.id_token = Some(jwt_from_payload(r#"{"preferred_username":"me"}"#));
    assert_eq!(identity_label(&auth), "me");
    auth.id_token = None;
    assert_eq!(identity_label(&auth), "ChatGPT account account");
    auth.account_id = String::new();
    assert_eq!(identity_label(&auth), "ChatGPT");
}

#[test]
fn authorize_url_encodes_each_value() {
    let url = authorize_url("chal lenge", "st/ate");
    assert!(url.starts_with("https://auth.openai.com/oauth/authorize?response_type=code&"));
    assert!(url.contains("&code_challenge=chal%20lenge&"));
    assert!(url.contains("redirect_uri=http%3A%2F%2Flocalhost%3A1455%2Fauth%2Fcallback"));
    assert!(url.ends_with("&originator=grok-build&state=st%2Fate"));
}

#[test]
fn callback_ignores_unrelated_requests_and_never_reflects_input() {
    let r = handle_callback(Some("wrong"), false, Some("unrelated"), "expected");
    assert!(r.result.is_none());
    let r = handle_callback(None, true, None, "expected");
    assert!(r.result.is_none());
    let r = handle_callback(Some("expected"), false, Some(""), "expected");
    assert!(r.result.is_none());
    assert!(r.html.contains("Missing login code"));
    let r = handle_callback(Some("expected"), true, Some("<script>evil</script>"), "expected");
    assert!(matches!(r.result, Some(Err(ref e)) if !e.contains("evil")));
    assert!(!r.html.contains("evil"));
    let r = handle_callback(Some("expected"), false, Some("accepted"), "expected");
    assert!(matches!(r.result, Some(Ok(ref c)) if c == "accepted"));
}

#[test]
fn device_polling_waits_on_403_and_404() {
    assert_eq!(device_poll_interval(None), 5);
    assert_eq!(device_poll_interval(Some(0)), 1);
    assert_eq!(device_poll_interval(Some(7)), 7);
    assert!(matches!(device_poll_step(403, "403 Forbidden"), DevicePoll::Pending));
    assert!(matches!(device_poll_step(404, "404 Not Found"), DevicePoll::Pending));
    assert!(matches!(device_poll_step(200, "200 OK"), DevicePoll::Authorized));
    match device_poll_step(500, "500 Internal Server Error") {
        DevicePoll::Failed(m) => {
            assert_eq!(m, "ChatGPT device login failed (500 Internal Server Error)")
        }
        _ => panic!("expected failure"),
    }
}

#[test]
fn resolver_observes_logout_and_expiry() {
    assert_eq!(current_bearer(Some(cached_auth(None)), NOW).as_deref(), Some("cached"));
    assert_eq!(current_bearer(Some(cached_auth(Some(0))), NOW), None);
    assert_eq!(current_bearer(None, NOW), None);
}

#[test]
fn injector_drops_a_bearer_of_another_account() {
    let mut auth = cached_auth(None);
    auth.access_token = "new".into();
    let plan = inject_headers(Some("Bearer old"), &Some(auth), false);
    assert!(!plan.keep_authorization);
    assert!(plan.account_id.is_none() && plan.residency.is_none() && !plan.add_originator);
    let plan = inject_headers(Some("Bearer cached"), &Some(cached_auth(None)), false);
    assert!(plan.keep_authorization);
    assert_eq!(plan.account_id.as_deref(), Some("account"));
    assert_eq!(plan.residency.as_deref(), Some("us-west"));
    assert!(plan.add_originator);
    let mut bad = cached_auth(None);
    bad.account_id = "a\nb".into();
    let plan = inject_headers(Some("Bearer cached"), &Some(bad), true);
    assert!(plan.account_id.is_none());
    assert!(!plan.add_originator);
    assert!(!inject_headers(Some("Bearer cached"), &None, false).keep_authorization);
}

#[test]
fn credentials_attach_only_to_https_endpoints() {
    assert_eq!(attach_credentials("http://proxy.example/codex", false, false), AttachPlan::Disable);
    assert_eq!(
        attach_credentials("https://proxy.example/codex", false, false),
        AttachPlan::Install { wrap_injector: true }
    );
    assert_eq!(attach_credentials(CODEX_BASE_URL, true, true), AttachPlan::Keep);
    assert_eq!(stamp_sampler_config("https://api.x.ai/v1", None, false, false), None);
    assert_eq!(
        stamp_sampler_config("https://proxy.example/codex", Some("chatgpt"), true, false),
        Some(AttachPlan::Install { wrap_injector: false })
    );
}

#[test]
fn quota_checks_and_reset_times() {
    assert_eq!(identity(&Ok(cached_auth(None))).as_deref(), Some("account"));
    assert_eq!(identity(&Err("missing".into())), None);
    assert!(check_identity(&Some("a".into()), Some("a")).is_ok());
    assert_eq!(
        check_identity(&Some("a".into()), Some("b")),
        Err("ChatGPT authentication changed; retry quota refresh".to_string())
    );
    assert!(check_identity(&None, None).is_ok());
    assert!(check_quota_credentials(&cached_auth(Some(60)), NOW).is_ok());
    assert!(check_quota_credentials(&cached_auth(Some(-60)), NOW).is_err());
    let mut empty = cached_auth(None);
    empty.access_token = String::new();
    assert!(check_quota_credentials(&empty, NOW).is_err());
    let mut blank = cached_auth(None);
    blank.access_token = "   ".to_owned();
    assert_eq!(identity(&Ok(blank)), None);
    assert_eq!(quota_http_error(401), "ChatGPT quota HTTP 401");
    assert_eq!(fill_reset_at(None, Some(120), NOW), Some(NOW + 120));
    assert_eq!(fill_reset_at(Some(2_000_000_000), Some(120), NOW), Some(2_000_000_000));
    assert_eq!(fill_reset_at(None, Some(-5), NOW), Some(NOW));
    assert_eq!(fill_reset_at(None, None, NOW), None);
}

#[test]
fn store_rules() {
    assert!(validate_loaded(ChatgptAuth {
        access_token: "  ".into(),
        ..cached_auth(None)
    })
    .is_err());
    assert!(validate_loaded(cached_auth(None)).is_ok());
    assert!(!save_needs_write(&Some(cached_auth(None)), &cached_auth(None)));
    assert!(save_needs_write(&None, &cached_auth(None)));
    let loaded = cached_auth(None);
    let mut other = cached_auth(None);
    other.account_id = "new-account".into();
    assert_eq!(
        refresh_result(&loaded, &Ok(other), cached_auth(None)).err().as_deref(),
        Some("ChatGPT authentication changed during refresh")
    );
    let (fresh, save) = refresh_result(&loaded, &Ok(cached_auth(None)), cached_auth(None)).unwrap();
    assert_eq!(fresh.access_token, "cached");
    assert!(!save);
}

#[test]
fn device_interval_accepts_numbers_and_numeric_text() {
    assert_eq!(device_interval(None), Ok(None));
    assert_eq!(device_interval(Some(DeviceInterval::Number(7))), Ok(Some(7)));
    assert_eq!(device_interval(Some(DeviceInterval::Text(" 5 ".into()))), Ok(Some(5)));
    assert_eq!(device_interval(Some(DeviceInterval::Text("+3".into()))), Ok(Some(3)));
    assert_eq!(
        device_interval(Some(DeviceInterval::Text("  ".into()))),
        Err("cannot parse integer from empty string".to_owned())
    );
    assert_eq!(
        device_interval(Some(DeviceInterval::Text("5s".into()))),
        Err("invalid digit found in string".to_owned())
    );
    assert_eq!(
        device_interval(Some(DeviceInterval::Text("18446744073709551616".into()))),
        Err("number too large to fit in target type".to_owned())
    );
}

#[test]
fn parse_u64_matches_std_on_edges() {
    for s in ["0", "18446744073709551615", "+", "-1", "", "007", "1 2", "99999999999999999999x"] {
        let chars: Vec<char> = s.chars().collect();
        let ours = parse_u64(&chars).ok();
        assert_eq!(ours, s.parse::<u64>().ok(), "{s}");
    }
}

#[test]
fn device_interval_accepts_upstream_string_and_legacy_number() {
    for interval in [DeviceInterval::Text("5".into()), DeviceInterval::Number(5)] {
        assert_eq!(device_interval(Some(interval)), Ok(Some(5)));
    }
}

#[test]
fn extras_policy_applied_twice_changes_nothing_more() {
    for (url, first_party) in [
        (CODEX_BASE_URL, false),
        ("https://cli-chat-proxy.grok.com/v1", true),
        ("https://grok-proxy.acme.com/v1", false),
    ] {
        let mut config: ExtrasConfig<u32, u64> = ExtrasConfig {
            base_url: url.to_owned(),
            supports_backend_search: true,
            compactions_remaining: Some(2),
            compaction_at_tokens: Some(50_000),
            include_encrypted_reasoning: false,
            responses_system_as_instructions: true,
            extra_response_includes: vec!["x.include".to_owned()],
        };
        apply_extras_policy(&mut config, first_party);
        let once = (
            config.include_encrypted_reasoning,
            config.supports_backend_search,
            config.compactions_remaining,
            config.compaction_at_tokens,
            config.extra_response_includes.clone(),
            config.responses_system_as_instructions,
        );
        apply_extras_policy(&mut config, first_party);
        let twice = (
            config.include_encrypted_reasoning,
            config.supports_backend_search,
            config.compactions_remaining,
            config.compaction_at_tokens,
            config.extra_response_includes.clone(),
            config.responses_system_as_instructions,
        );
        assert_eq!(once, twice, "{url}");
    }
}

#[test]
fn restamp_keeps_installed_credentials() {
    let first = attach_credentials(CODEX_BASE_URL, false, false);
    assert_eq!(first, AttachPlan::Install { wrap_injector: true });
    assert_eq!(attach_credentials(CODEX_BASE_URL, true, false), AttachPlan::Install { wrap_injector: false });
    assert_eq!(attach_credentials(CODEX_BASE_URL, true, true), AttachPlan::Keep);
}

#[test]
fn clearing_credentials_twice_succeeds() {
    use_clear();
}

fn use_clear() {
    assert_eq!(clear_result(RemoveResult::Removed), Ok(()));
    assert_eq!(clear_result(RemoveResult::Missing), Ok(()));
    assert_eq!(
        clear_result(RemoveResult::Failed("denied".into())),
        Err("failed to remove ChatGPT credentials: denied".to_owned())
    );
}

#[test]
fn token_json_escapes_like_serde_and_urls_encode_bytes() {
    let mut auth = cached_auth(None);
    auth.access_token = "a\"b\\c\n\u{1}\u{7f}é".to_owned();
    assert_eq!(serialize_token(&auth, NOW), "{\"access_token\":\"a\\\"b\\\\c\\n\\u0001\u{7f}é\"}");
    let url = authorize_url("chal", "a b/é~");
    assert!(url.contains("state=a%20b%2F%C3%A9~"), "{url}");
}
