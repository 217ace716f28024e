use grok_build::quota_state::{quota_result, QuotaReply};
use grok_build::quota_state::{provider, Provider, QuotaState, Request};

const NOW: u64 = 5_000_000;

fn same(a: &Request, b: &Request) -> bool {
    a.identity == b.identity && a.generation == b.generation
}

fn copy(r: &Request) -> Request {
    Request {
        identity: r.identity.clone(),
        generation: r.generation,
    }
}

/// The chip of the snapshot, as the quota view formats a snapshot of
/// `used` percent (or its absence).
fn formatted(state: &QuotaState<u32>) -> String {
    match state.snapshot {
        Some(used) => format!("{used}%"),
        None => "ChatGPT quota unavailable".to_string(),
    }
}

#[test]
fn quota_cache_coalesces_expires_and_retries_without_losing_snapshot() {
    let mut state: QuotaState<u32> = QuotaState::new();
    let now = NOW;
    let identity = Some("test-account".to_owned());
    let first = state.begin(identity.clone(), now).unwrap();
    assert!(state.begin(identity.clone(), now).is_none());
    state.finish(first, Ok(0), identity.clone(), now);
    assert!(state.begin(identity.clone(), now + 59_000).is_none());
    let expired = state.begin(identity.clone(), now + 60_000).unwrap();
    state.finish(expired, Err("offline".into()), identity.clone(), now + 60_000);
    assert!(state.snapshot.is_some());
    assert!(state.begin(identity, now + 60_000).is_some());
}

#[test]
fn quota_failures_are_visible_and_success_clears_them() {
    let mut state: QuotaState<u32> = QuotaState::new();
    let now = NOW;
    let identity = Some("account".to_owned());
    let first = state.begin(identity.clone(), now).unwrap();
    state.finish(first, Err("secret error detail".into()), identity.clone(), now);
    assert_eq!(
        state.chip(&formatted(&state)),
        "ChatGPT quota unavailable (refresh failed)"
    );
    let retry = state.begin(identity.clone(), now).unwrap();
    assert_eq!(state.chip(&formatted(&state)), "refreshing...");
    state.finish(retry, Ok(25), identity.clone(), now);
    assert_eq!(state.chip(&formatted(&state)), "25%");
    let later = now + 60_000;
    let refresh = state.begin(identity.clone(), later).unwrap();
    state.finish(refresh, Err("offline".into()), identity.clone(), later);
    assert_eq!(state.chip(&formatted(&state)), "25% (stale; refresh failed)");
    assert!(state.fetched_at_ms.is_none());
    assert!(state.begin(identity, later).is_some());
    state.sync_identity(None);
    assert_eq!(state.chip(&formatted(&state)), "ChatGPT quota unavailable");
}

#[test]
fn superseded_generation_cannot_replace_retry_for_same_identity() {
    let mut state: QuotaState<u32> = QuotaState::new();
    let now = NOW;
    let identity = Some("account".to_owned());
    let old = state.begin(identity.clone(), now).unwrap();
    state.finish(copy(&old), Err("timeout".into()), identity.clone(), now);
    let retry = state.begin(identity.clone(), now).unwrap();
    state.finish(old, Ok(0), identity, now);
    assert!(same(state.in_flight.as_ref().unwrap(), &retry));
    assert!(state.snapshot.is_none());
}

#[test]
fn authentication_checks_are_throttled_without_quota_polling() {
    let now = NOW;
    let mut state: QuotaState<u32> = QuotaState::new();
    assert!(state.authentication_check_due(now));
    state.authentication_checked_at_ms = Some(now);
    assert!(!state.authentication_check_due(now + 999));
    assert!(state.authentication_check_due(now + 1_000));
}

#[test]
fn quota_identity_change_discards_snapshot_and_late_results() {
    let mut state: QuotaState<u32> = QuotaState::new();
    let now = NOW;
    let old = state.begin(Some("old".into()), now).unwrap();
    let new = state.begin(Some("new".into()), now).unwrap();
    state.finish(old, Ok(0), Some("new".into()), now);
    assert!(same(state.in_flight.as_ref().unwrap(), &new));
    assert!(state.snapshot.is_none());
    state.finish(new, Ok(0), Some("new".into()), now);
    assert!(state.snapshot.is_some());
    state.sync_identity(None);
    assert!(state.snapshot.is_none());
    assert!(state.fetched_at_ms.is_none());
}

#[test]
fn quota_model_routing_uses_metadata_not_names() {
    assert_eq!(provider(None), Provider::Unsupported);
    for (name, expected) in [
        ("chatgpt", Provider::Chatgpt),
        ("grok", Provider::Grok),
        ("unsupported", Provider::Unsupported),
    ] {
        assert_eq!(provider(Some(name)), expected);
    }
}

// Scenarios of my own.

#[test]
fn authentication_sync_runs_only_with_something_to_protect() {
    let mut state: QuotaState<u32> = QuotaState::new();
    assert!(!state.sync_authentication(true, Some("a".into()), NOW));
    assert!(state.identity.is_none());
    let _ = state.begin(Some("a".into()), NOW).unwrap();
    assert!(state.sync_authentication(false, Some("b".into()), NOW));
    assert_eq!(state.identity.as_deref(), Some("b"));
    assert!(state.in_flight.is_none());
    assert!(!state.sync_authentication(false, Some("c".into()), NOW + 10));
    assert!(state.sync_authentication(true, Some("c".into()), NOW + 10));
}

#[test]
fn generations_advance_per_admitted_request() {
    let mut state: QuotaState<u32> = QuotaState::new();
    let a = state.begin(None, NOW).unwrap();
    state.finish(copy(&a), Err("x".into()), None, NOW);
    let b = state.begin(None, NOW).unwrap();
    assert_eq!(b.generation, a.generation + 1);
}

use grok_build::quota_state::{refresh, RefreshAction};

#[test]
fn refresh_routes_by_provider() {
    let mut state: QuotaState<u32> = QuotaState::new();
    assert!(matches!(refresh(false, Provider::Chatgpt, true, &mut state, None, NOW), RefreshAction::Nothing));
    assert!(matches!(refresh(true, Provider::Grok, true, &mut state, None, NOW), RefreshAction::FetchBilling));
    assert!(matches!(refresh(true, Provider::Grok, false, &mut state, None, NOW), RefreshAction::Nothing));
    assert!(matches!(refresh(true, Provider::Unsupported, true, &mut state, None, NOW), RefreshAction::Nothing));
    assert!(matches!(
        refresh(true, Provider::Chatgpt, false, &mut state, Some("a".into()), NOW),
        RefreshAction::FetchChatgpt(_)
    ));
    assert!(matches!(
        refresh(true, Provider::Chatgpt, false, &mut state, Some("a".into()), NOW),
        RefreshAction::Nothing
    ));
}

#[test]
fn quota_replies_map_to_fetch_results() {
    assert_eq!(quota_result::<u32>(QuotaReply::SendFailed), Err("ChatGPT quota request failed".to_owned()));
    assert_eq!(quota_result::<u32>(QuotaReply::Unparsable), Err("Invalid ChatGPT quota response".to_owned()));
    assert_eq!(quota_result::<u32>(QuotaReply::Error), Err("ChatGPT quota unavailable".to_owned()));
    assert_eq!(quota_result(QuotaReply::Payload(Some(25u32))), Ok(25));
    assert_eq!(quota_result::<u32>(QuotaReply::Payload(None)), Err("Invalid ChatGPT quota response".to_owned()));
}
