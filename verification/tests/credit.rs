use grok_build::credit::{
    format_quota_chip_at, format_reset_remaining, format_usage_summary, quota_chip_for_prompt,
    usage_warning, usage_warning_for_session, AutoTopupInfo, CreditBalance,
};

/// A balance whose allowance and total-budget usage are both `pct`, read the
/// way the billing fetch reads a percentage.
fn bal(pct: f64) -> CreditBalance {
    CreditBalance {
        usage_floor: pct.floor() as i64,
        usage_full: pct >= 100.0,
        effective_floor: pct.floor() as i64,
        effective_over_90: pct > 90.0,
        effective_over_95: pct > 95.0,
        period_end_display: None,
        period_end_secs: None,
        pay_as_you_go: false,
        on_demand_cap_cents: None,
        on_demand_used_cents: None,
        prepaid_balance_cents: None,
        period_type: None,
        is_unified_billing_user: None,
    }
}

fn topup(enabled: bool, amount: Option<i64>, max: Option<i64>) -> AutoTopupInfo {
    AutoTopupInfo {
        enabled,
        topup_amount_cents: amount,
        max_amount_cents: max,
    }
}

fn bal_period(pct: f64, period_type: &str) -> CreditBalance {
    CreditBalance {
        period_type: Some(period_type.to_string()),
        ..bal(pct)
    }
}

fn pay_as_you_go(usage_pct: f64, cap_cents: i64, used_cents: i64) -> CreditBalance {
    CreditBalance {
        pay_as_you_go: true,
        on_demand_cap_cents: Some(cap_cents),
        on_demand_used_cents: Some(used_cents),
        period_type: Some("USAGE_PERIOD_TYPE_MONTHLY".into()),
        ..bal(usage_pct)
    }
}

#[test]
fn summary_no_credits_omits_credits_block() {
    let b = CreditBalance {
        period_end_display: Some("June 14, 16:00".into()),
        prepaid_balance_cents: Some(0),
        ..bal(25.0)
    };
    let out = format_usage_summary(&b, Some(&topup(true, Some(2000), Some(10000))));
    assert_eq!(out, "Usage: 25%\nNext reset: June 14, 16:00");
}

#[test]
fn summary_credits_without_autotopup_shows_disabled() {
    let b = CreditBalance {
        prepaid_balance_cents: Some(10000),
        ..bal(25.0)
    };
    assert_eq!(
        format_usage_summary(&b, None),
        "Usage: 25%\n\nCredits: $100\nAuto topup: disabled"
    );
    assert_eq!(
        format_usage_summary(&b, Some(&topup(false, Some(2000), Some(10000)))),
        "Usage: 25%\n\nCredits: $100\nAuto topup: disabled"
    );
}

#[test]
fn summary_autotopup_enabled_without_max_omits_max() {
    let b = CreditBalance {
        prepaid_balance_cents: Some(10000),
        ..bal(25.0)
    };
    assert_eq!(
        format_usage_summary(&b, Some(&topup(true, Some(2000), None))),
        "Usage: 25%\n\nCredits: $100\nAuto topup: $20"
    );
}

#[test]
fn summary_autotopup_enabled_with_max_renders_all() {
    let b = CreditBalance {
        period_end_display: Some("June 14, 16:00".into()),
        prepaid_balance_cents: Some(10000),
        ..bal(25.0)
    };
    assert_eq!(
        format_usage_summary(&b, Some(&topup(true, Some(2000), Some(10000)))),
        "Usage: 25%\nNext reset: June 14, 16:00\n\nCredits: $100\nAuto topup: $20\nMax monthly topup: $100"
    );
}

#[test]
fn summary_formats_fractional_dollars() {
    let b = CreditBalance {
        prepaid_balance_cents: Some(1250),
        ..bal(25.0)
    };
    assert_eq!(
        format_usage_summary(&b, Some(&topup(true, Some(550), None))),
        "Usage: 25%\n\nCredits: $12.50\nAuto topup: $5.50"
    );
}

#[test]
fn summary_abs_negative_billing_amounts() {
    let b = CreditBalance {
        prepaid_balance_cents: Some(-500),
        ..bal(100.0)
    };
    assert_eq!(
        format_usage_summary(&b, Some(&topup(true, Some(-500), Some(-1000)))),
        "Usage: 100%\n\nCredits: $5\nAuto topup: $5\nMax monthly topup: $10"
    );
}

#[test]
fn summary_pay_as_you_go_enabled_renders_used_of_limit() {
    let b = CreditBalance {
        pay_as_you_go: true,
        on_demand_used_cents: Some(355),
        on_demand_cap_cents: Some(5000),
        period_type: Some("USAGE_PERIOD_TYPE_MONTHLY".into()),
        period_end_display: Some("June 30, 16:00".into()),
        ..bal(91.0)
    };
    assert_eq!(
        format_usage_summary(&b, None),
        "Monthly limit: 91%\nNext reset: June 30, 16:00\n\nPay-as-you-go: $3.55 used of $50.00 limit"
    );
}

#[test]
fn summary_pay_as_you_go_disabled_omits_line() {
    let b = CreditBalance {
        pay_as_you_go: false,
        period_type: Some("USAGE_PERIOD_TYPE_MONTHLY".into()),
        period_end_display: Some("June 30, 16:00".into()),
        ..bal(91.0)
    };
    assert_eq!(
        format_usage_summary(&b, None),
        "Monthly limit: 91%\nNext reset: June 30, 16:00"
    );
}

#[test]
fn usage_label_from_period_type() {
    assert_eq!(
        bal_period(0.0, "USAGE_PERIOD_TYPE_WEEKLY").usage_label(),
        "Weekly limit"
    );
    assert_eq!(
        bal_period(0.0, "USAGE_PERIOD_TYPE_MONTHLY").usage_label(),
        "Monthly limit"
    );
    assert_eq!(
        bal_period(0.0, "USAGE_PERIOD_TYPE_UNSPECIFIED").usage_label(),
        "Usage"
    );
    assert_eq!(bal(0.0).usage_label(), "Usage");
}

#[test]
fn summary_uses_period_label() {
    let weekly = bal_period(25.0, "USAGE_PERIOD_TYPE_WEEKLY");
    assert_eq!(format_usage_summary(&weekly, None), "Weekly limit: 25%");
    let monthly = bal_period(25.0, "USAGE_PERIOD_TYPE_MONTHLY");
    assert_eq!(format_usage_summary(&monthly, None), "Monthly limit: 25%");
}

#[test]
fn warning_uses_period_label() {
    let weekly = bal_period(92.0, "USAGE_PERIOD_TYPE_WEEKLY");
    assert_eq!(
        usage_warning(&weekly, None, true),
        Some(("Weekly limit left: 8%".to_string(), false))
    );
}

#[test]
fn summary_floors_usage_percent() {
    let almost = bal_period(99.994, "USAGE_PERIOD_TYPE_WEEKLY");
    assert_eq!(format_usage_summary(&almost, None), "Weekly limit: 99%");
    let full = bal_period(100.0, "USAGE_PERIOD_TYPE_WEEKLY");
    assert_eq!(format_usage_summary(&full, None), "Weekly limit: 100%");
}

#[test]
fn warning_percent_left_is_floor_complement() {
    let almost = bal_period(99.994, "USAGE_PERIOD_TYPE_WEEKLY");
    assert_eq!(
        usage_warning(&almost, None, true),
        Some(("Weekly limit left: 1%".to_string(), true))
    );
    let full = bal_period(100.0, "USAGE_PERIOD_TYPE_WEEKLY");
    assert_eq!(
        usage_warning(&full, None, true),
        Some(("Weekly limit left: 0%".to_string(), true))
    );
}

#[test]
fn warning_usage_model_thresholds() {
    assert_eq!(usage_warning(&bal(50.0), None, true), None);
    assert_eq!(
        usage_warning(&bal(92.0), None, true),
        Some(("Usage left: 8%".to_string(), false))
    );
    assert_eq!(
        usage_warning(&bal(97.0), None, true),
        Some(("Usage left: 3%".to_string(), true))
    );
}

#[test]
fn warning_hidden_for_team_users() {
    assert_eq!(usage_warning(&bal(99.0), None, false), None);
    let credits = CreditBalance {
        prepaid_balance_cents: Some(100),
        ..bal(0.0)
    };
    assert_eq!(usage_warning(&credits, None, false), None);
}

#[test]
fn warning_credits_unknown_topup_is_suppressed() {
    let b = CreditBalance {
        prepaid_balance_cents: Some(100),
        ..bal(100.0)
    };
    assert_eq!(usage_warning(&b, None, true), None);
}

#[test]
fn warning_credits_suppressed_below_full_usage() {
    let disabled = topup(false, None, None);
    let low = CreditBalance {
        prepaid_balance_cents: Some(453),
        ..bal(0.0)
    };
    assert_eq!(usage_warning(&low, Some(&disabled), true), None);
    let exhausted = CreditBalance {
        prepaid_balance_cents: Some(453),
        ..bal(100.0)
    };
    assert_eq!(
        usage_warning(&exhausted, Some(&disabled), true),
        Some(("Credits left: $4.53".to_string(), true))
    );
}

#[test]
fn warning_credits_no_topup_low_shows_dollars() {
    let b = CreditBalance {
        prepaid_balance_cents: Some(453),
        ..bal(100.0)
    };
    let disabled = topup(false, None, None);
    assert_eq!(
        usage_warning(&b, Some(&disabled), true),
        Some(("Credits left: $4.53".to_string(), true))
    );
}

#[test]
fn warning_credits_no_topup_above_threshold_silent() {
    let disabled = topup(false, None, None);
    let b = CreditBalance {
        prepaid_balance_cents: Some(1500),
        ..bal(100.0)
    };
    assert_eq!(usage_warning(&b, Some(&disabled), true), None);
    let at_ten = CreditBalance {
        prepaid_balance_cents: Some(1000),
        ..bal(100.0)
    };
    assert_eq!(
        usage_warning(&at_ten, Some(&disabled), true),
        Some(("Credits left: $10".to_string(), true))
    );
}

#[test]
fn warning_credits_topup_no_max_never_warns() {
    let b = CreditBalance {
        prepaid_balance_cents: Some(1),
        ..bal(100.0)
    };
    assert_eq!(
        usage_warning(&b, Some(&topup(true, Some(2000), None)), true),
        None
    );
}

#[test]
fn warning_credits_topup_with_max_below_topup_amount() {
    let b = CreditBalance {
        prepaid_balance_cents: Some(1500),
        ..bal(100.0)
    };
    assert_eq!(
        usage_warning(&b, Some(&topup(true, Some(2000), Some(10000))), true),
        Some(("Credits left: $15".to_string(), true))
    );
    let plenty = CreditBalance {
        prepaid_balance_cents: Some(2500),
        ..bal(100.0)
    };
    assert_eq!(
        usage_warning(&plenty, Some(&topup(true, Some(2000), Some(10000))), true),
        None
    );
}

#[test]
fn warning_credits_handles_negative_cents() {
    let b = CreditBalance {
        prepaid_balance_cents: Some(-453),
        ..bal(100.0)
    };
    assert_eq!(
        usage_warning(&b, Some(&topup(true, Some(-2000), Some(-10000))), true),
        Some(("Credits left: $4.53".to_string(), true))
    );
}

#[test]
fn warning_credits_take_precedence_over_usage() {
    let b = CreditBalance {
        prepaid_balance_cents: Some(5000),
        ..bal(99.0)
    };
    assert_eq!(
        usage_warning(&b, Some(&topup(false, None, None)), true),
        None
    );
    let zero = CreditBalance {
        prepaid_balance_cents: Some(0),
        ..bal(99.0)
    };
    assert_eq!(
        usage_warning(&zero, None, true),
        Some(("Usage left: 1%".to_string(), true))
    );
}

#[test]
fn warning_pay_as_you_go_low_dollars_shows_remaining() {
    let grey = pay_as_you_go(100.0, 5000, 4200);
    assert_eq!(
        usage_warning(&grey, None, true),
        Some(("Pay-as-you-go limit left: $8".to_string(), false))
    );
    let yellow = pay_as_you_go(100.0, 5000, 4600);
    assert_eq!(
        usage_warning(&yellow, None, true),
        Some(("Pay-as-you-go limit left: $4".to_string(), true))
    );
}

#[test]
fn warning_pay_as_you_go_boundaries() {
    let at_ten = pay_as_you_go(100.0, 5000, 4000);
    assert_eq!(
        usage_warning(&at_ten, None, true),
        Some(("Pay-as-you-go limit left: $10".to_string(), false))
    );
    let at_five = pay_as_you_go(100.0, 5000, 4500);
    assert_eq!(
        usage_warning(&at_five, None, true),
        Some(("Pay-as-you-go limit left: $5".to_string(), true))
    );
}

#[test]
fn warning_pay_as_you_go_above_threshold_silent() {
    let b = pay_as_you_go(100.0, 5000, 3000);
    assert_eq!(usage_warning(&b, None, true), None);
}

#[test]
fn warning_pay_as_you_go_suppressed_below_full_usage() {
    let b = pay_as_you_go(95.0, 5000, 4800);
    assert_eq!(usage_warning(&b, None, true), None);
}

#[test]
fn warning_pay_as_you_go_fractional_dollars() {
    let b = pay_as_you_go(100.0, 5000, 4650);
    assert_eq!(
        usage_warning(&b, None, true),
        Some(("Pay-as-you-go limit left: $3.50".to_string(), true))
    );
}

#[test]
fn format_quota_chip_with_and_without_period_end() {
    let now = chrono::DateTime::parse_from_rfc3339("2026-07-01T00:00:00Z")
        .unwrap()
        .with_timezone(&chrono::Utc);
    let end = now + chrono::Duration::days(4) + chrono::Duration::hours(5);
    let with_end = CreditBalance {
        period_end_secs: Some(end.timestamp()),
        ..bal(10.4)
    };
    assert_eq!(
        format_quota_chip_at(&with_end, now.timestamp()),
        "10% (reset: 4d5h)"
    );
    assert_eq!(format_quota_chip_at(&bal(42.9), now.timestamp()), "42%");
}

#[test]
fn quota_chip_for_prompt_shows_refreshing_while_fetch_in_flight() {
    let balance = bal(10.0);
    assert_eq!(
        quota_chip_for_prompt(true, false, true, Some(&balance)).as_deref(),
        Some("refreshing..."),
        "in-flight fetch must replace the cached chip"
    );
    assert_eq!(
        quota_chip_for_prompt(true, false, true, None).as_deref(),
        Some("refreshing..."),
        "in-flight fetch shows even when no balance is cached yet"
    );
    let idle = quota_chip_for_prompt(true, false, false, Some(&balance));
    assert!(
        idle.as_deref().is_some_and(|s| s.starts_with("10%")),
        "idle chip should be the cached balance, got {idle:?}"
    );
    assert_eq!(
        quota_chip_for_prompt(true, false, false, None),
        None,
        "idle with no cache shows nothing"
    );
    assert_eq!(
        quota_chip_for_prompt(false, false, true, Some(&balance)),
        None,
        "hidden billing surface never shows the chip"
    );
    assert_eq!(
        quota_chip_for_prompt(true, true, true, Some(&balance)),
        None,
        "gateway chat suppresses the quota chip"
    );
}

#[test]
fn gateway_chat_suppresses_credit_bar_and_usage_warning() {
    let b = bal(90.0);
    assert!(usage_warning_for_session(&b, None, true, true).is_none());
}

// Scenarios of my own.

#[test]
fn warning_pay_as_you_go_overspent_cap_shows_zero() {
    let b = pay_as_you_go(100.0, 5000, 6000);
    assert_eq!(
        usage_warning(&b, None, true),
        Some(("Pay-as-you-go limit left: $0".to_string(), true))
    );
}

#[test]
fn quota_chip_clamps_a_past_period_end() {
    let b = CreditBalance {
        period_end_secs: Some(100),
        ..bal(55.0)
    };
    assert_eq!(format_quota_chip_at(&b, 1_000), "55% (reset: <1m)");
}

#[test]
fn disabled_topup_is_a_known_off_rule() {
    let d = AutoTopupInfo::disabled();
    assert!(!d.enabled);
    assert!(d.topup_amount_cents.is_none());
    assert!(d.max_amount_cents.is_none());
}

use grok_build::credit::{PromptBorderChips, PromptFlag};

fn flag(text: &str) -> PromptFlag<u8> {
    PromptFlag {
        text: text.into(),
        color: None,
        bold: false,
    }
}

#[test]
fn prompt_border_chips_order_context_mode_quota() {
    let balance = bal(10.0);
    let chips = PromptBorderChips::for_prompt(
        Some(("47K / 500K (9%)".to_string(), 3u8)),
        true,
        false,
        false,
        Some(&balance),
    );
    assert!(chips.context.is_some());
    assert!(chips.quota.as_deref().is_some_and(|s| s.starts_with("10%")));
    let woven = chips.with_mode_flags(vec![flag("always-approve"), flag("plan")]);
    assert_eq!(woven.len(), 3);
    assert!(woven[0].text.contains('/'), "context first: {}", woven[0].text);
    assert_eq!(woven[0].color, Some(3));
    assert_eq!(woven[1].text, "plan");
    assert!(woven[2].text.starts_with("10%"), "quota last: {}", woven[2].text);
    assert!(woven.iter().all(|f| f.text != "always-approve"));
    let only = chips.chip_only_flags();
    assert_eq!(only.len(), 2);
    assert!(only[0].text.contains('/'));
    assert!(only[1].text.starts_with("10%"));
}
