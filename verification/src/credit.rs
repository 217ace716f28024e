//! Coding-credit usage: the `/usage` summary, the prompt's usage warning,
//! and the quota chip of the prompt info line.
//!
//! Percentages arrive as the readings the rules use: the floored
//! percentage and the threshold comparisons.

use vstd::prelude::*;
use crate::text::{contains, dec, dec2, dec_chars, dec2_chars, dec_int, dec_int_chars, extend, extend_str, chars_of, contains_exec, join, join_exec, owned, string_of};
use crate::paths::views;

verus! {

/// Credit balance state from the billing API.
pub struct CreditBalance {
    /// Usage percentage of the allowance, floored.
    pub usage_floor: i64,
    /// Usage has reached 100% of the allowance.
    pub usage_full: bool,
    /// Usage percentage of the total budget, floored.
    pub effective_floor: i64,
    /// Usage of the total budget is above 90%.
    pub effective_over_90: bool,
    /// Usage of the total budget is above 95%.
    pub effective_over_95: bool,
    /// Billing period end as a local wall-clock string, e.g. "Mar 31, 12:00".
    pub period_end_display: Option<String>,
    /// Billing period end, in whole seconds since the Unix epoch.
    pub period_end_secs: Option<i64>,
    /// Whether pay-as-you-go (on-demand) billing is enabled.
    pub pay_as_you_go: bool,
    /// On-demand spending cap in USD cents.
    pub on_demand_cap_cents: Option<i64>,
    /// On-demand usage this period in USD cents.
    pub on_demand_used_cents: Option<i64>,
    /// Remaining prepaid credit balance in USD cents (billing stores it
    /// negative).
    pub prepaid_balance_cents: Option<i64>,
    /// Usage period type, e.g. `USAGE_PERIOD_TYPE_WEEKLY`.
    pub period_type: Option<String>,
    /// `Some(true)` for the unified pool, `Some(false)` for legacy on-demand.
    pub is_unified_billing_user: Option<bool>,
}

/// Auto top-up rule data used by the `/usage` summary.
pub struct AutoTopupInfo {
    pub enabled: bool,
    /// Per-trigger top-up amount in USD cents.
    pub topup_amount_cents: Option<i64>,
    /// Optional maximum monthly top-up amount in USD cents.
    pub max_amount_cents: Option<i64>,
}

impl AutoTopupInfo {
    /// A known "auto top-up disabled" state, distinct from an unresolved
    /// `None`.
    pub fn disabled() -> (r: Self)
        ensures
            !r.enabled,
            r.topup_amount_cents is None,
            r.max_amount_cents is None,
    {
        AutoTopupInfo { enabled: false, topup_amount_cents: None, max_amount_cents: None }
    }
}

/// Outcome of an auto top-up rule fetch.
pub enum AutoTopupFetch {
    /// A definitive rule state.
    Resolved(AutoTopupInfo),
    /// Fetch failed; keep the cached value.
    Unchanged,
    /// The rule is not applicable; reset the cache to unknown.
    Cleared,
}

/// Label of the percentage allowance: by period type, else `Usage`.
pub open spec fn usage_label_spec(period_type: Option<String>) -> Seq<char> {
    match period_type {
        Some(t) => if contains(t@, "WEEKLY"@) {
            "Weekly limit"@
        } else if contains(t@, "MONTHLY"@) {
            "Monthly limit"@
        } else {
            "Usage"@
        },
        None => "Usage"@,
    }
}

impl CreditBalance {
    /// Label for the percentage allowance, chosen from the period type.
    pub fn usage_label(&self) -> (r: &'static str)
        ensures
            r@ == usage_label_spec(self.period_type),
    {
        match &self.period_type {
            Some(t) => {
                let c = chars_of(t.as_str());
                let w = chars_of("WEEKLY");
                let m = chars_of("MONTHLY");
                if contains_exec(c.as_slice(), w.as_slice()) {
                    "Weekly limit"
                } else if contains_exec(c.as_slice(), m.as_slice()) {
                    "Monthly limit"
                } else {
                    "Usage"
                }
            },
            None => "Usage",
        }
    }
}

/// Compact remaining time: whole days and hours, hours and minutes,
/// minutes, or `<1m`.
pub open spec fn reset_remaining_spec(secs: nat) -> Seq<char> {
    let days = secs / 86400;
    let hours = (secs % 86400) / 3600;
    let mins = (secs % 3600) / 60;
    if days > 0 {
        if hours > 0 {
            dec(days) + "d"@ + dec(hours) + "h"@
        } else {
            dec(days) + "d"@
        }
    } else if hours > 0 {
        if mins > 0 {
            dec(hours) + "h"@ + dec(mins) + "m"@
        } else {
            dec(hours) + "h"@
        }
    } else if mins > 0 {
        dec(mins) + "m"@
    } else {
        "<1m"@
    }
}

/// Compact remaining-time for the info-line chip: `4d5h`, `5h12m`, `45m`,
/// `<1m`.
pub fn format_reset_remaining(secs: u64) -> (r: String)
    ensures
        r@ == reset_remaining_spec(secs as nat),
{
    let days = secs / 86400;
    let hours = (secs % 86400) / 3600;
    let mins = (secs % 3600) / 60;
    let mut r: Vec<char> = Vec::new();
    if days > 0 {
        extend(&mut r, dec_chars(days).as_slice());
        extend_str(&mut r, "d");
        if hours > 0 {
            extend(&mut r, dec_chars(hours).as_slice());
            extend_str(&mut r, "h");
        }
    } else if hours > 0 {
        extend(&mut r, dec_chars(hours).as_slice());
        extend_str(&mut r, "h");
        if mins > 0 {
            extend(&mut r, dec_chars(mins).as_slice());
            extend_str(&mut r, "m");
        }
    } else if mins > 0 {
        extend(&mut r, dec_chars(mins).as_slice());
        extend_str(&mut r, "m");
    } else {
        extend_str(&mut r, "<1m");
    }
    string_of(r.as_slice())
}

/// Seconds left until `end`, never negative.
pub open spec fn secs_left(end: i64, now: i64) -> nat {
    if end > now {
        (end - now) as nat
    } else {
        0
    }
}

/// The quota chip: `10% (reset: 4d5h)`, or `10%` without a period end.
pub open spec fn quota_chip_spec(b: &CreditBalance, now: i64) -> Seq<char> {
    match b.period_end_secs {
        Some(end) => dec_int(b.usage_floor as int) + "% (reset: "@ + reset_remaining_spec(
            secs_left(end, now),
        ) + ")"@,
        None => dec_int(b.usage_floor as int) + "%"@,
    }
}

/// Like [`format_quota_chip`], with an explicit `now` (Unix seconds).
pub fn format_quota_chip_at(balance: &CreditBalance, now: i64) -> (r: String)
    ensures
        r@ == quota_chip_spec(balance, now),
{
    let mut r = dec_int_chars(balance.usage_floor);
    match balance.period_end_secs {
        Some(end) => {
            let secs: u64 = if end > now {
                ((end as i128) - (now as i128)) as u64
            } else {
                0
            };
            extend_str(&mut r, "% (reset: ");
            let rem = format_reset_remaining(secs);
            extend_str(&mut r, rem.as_str());
            extend_str(&mut r, ")");
        },
        None => {
            extend_str(&mut r, "%");
        },
    }
    string_of(r.as_slice())
}

/// The system clock against the Unix epoch
/// (`SystemTime::now().duration_since(UNIX_EPOCH)`), in whole seconds:
/// `Ok` of the seconds since it, or `Err` of the seconds before it when the
/// clock is set earlier. It never panics; nothing is stated of the time.
#[verifier::external_body]
fn clock_secs() -> Result<u64, u64> {
    match std::time::SystemTime::now().duration_since(std::time::UNIX_EPOCH) {
        Ok(d) => Ok(d.as_secs()),
        Err(e) => Err(e.duration().as_secs()),
    }
}

/// The current time in whole seconds since the Unix epoch, negative before
/// it, saturating at the ends of `i64`.
fn now_secs() -> i64 {
    match clock_secs() {
        Ok(after) => if after <= i64::MAX as u64 {
            after as i64
        } else {
            i64::MAX
        },
        Err(before) => if before <= i64::MAX as u64 {
            -(before as i64)
        } else {
            -i64::MAX
        },
    }
}

/// Prompt info-line quota chip at the current time.
pub fn format_quota_chip(balance: &CreditBalance) -> (r: String)
    ensures
        exists|now: i64| r@ == quota_chip_spec(balance, now),
{
    let now = now_secs();
    format_quota_chip_at(balance, now)
}

/// Prompt info-line quota chip text: hidden when the billing surface is off
/// or in a gateway chat session; `refreshing...` while a fetch is in flight;
/// otherwise the cached balance's chip, or nothing if uncached.
pub fn quota_chip_for_prompt(
    billing_surface_visible: bool,
    chat_kind: bool,
    fetch_in_flight: bool,
    balance: Option<&CreditBalance>,
) -> (r: Option<String>)
    ensures
        !billing_surface_visible || chat_kind ==> r is None,
        billing_surface_visible && !chat_kind && fetch_in_flight ==> r is Some && r->0@
            == "refreshing..."@,
        billing_surface_visible && !chat_kind && !fetch_in_flight ==> (match balance {
            Some(b) => r is Some && exists|now: i64| r->0@ == quota_chip_spec(b, now),
            None => r is None,
        }),
{
    if !billing_surface_visible || chat_kind {
        return None;
    }
    if fetch_in_flight {
        return Some(owned("refreshing..."));
    }
    match balance {
        Some(b) => Some(format_quota_chip(b)),
        None => None,
    }
}

/// Whether a session mode flag appears on the prompt info line:
/// always-approve is omitted.
pub fn keep_info_line_mode_flag(text: &str) -> (r: bool)
    ensures
        r == (text@ != "always-approve"@),
{
    let a = chars_of(text);
    let b = chars_of("always-approve");
    !crate::text::chars_eq(a.as_slice(), b.as_slice())
}

/// `$N` for whole dollars, else `$N.NN`, for non-negative cents.
pub open spec fn dollars(cents: nat) -> Seq<char> {
    if cents % 100 == 0 {
        "$"@ + dec(cents / 100)
    } else {
        "$"@ + dec(cents / 100) + "."@ + dec2(cents % 100)
    }
}

/// `$N.NN` for non-negative cents.
pub open spec fn dollars_cents(cents: nat) -> Seq<char> {
    "$"@ + dec(cents / 100) + "."@ + dec2(cents % 100)
}

/// Format `cents` as a dollar string: whole dollars as `$N`, otherwise
/// `$N.NN`.
fn fmt_dollars(cents: i64) -> (r: Vec<char>)
    requires
        cents >= 0,
    ensures
        r@ == dollars(cents as nat),
{
    let c = cents as u64;
    let mut r = chars_of("$");
    extend(&mut r, dec_chars(c / 100).as_slice());
    if c % 100 != 0 {
        extend_str(&mut r, ".");
        extend(&mut r, dec2_chars(c % 100).as_slice());
    }
    r
}

/// `$N.NN`.
fn fmt_dollars_cents(cents: i64) -> (r: Vec<char>)
    requires
        cents >= 0,
    ensures
        r@ == dollars_cents(cents as nat),
{
    let c = cents as u64;
    let mut r = chars_of("$");
    extend(&mut r, dec_chars(c / 100).as_slice());
    extend_str(&mut r, ".");
    extend(&mut r, dec2_chars(c % 100).as_slice());
    r
}

/// Absolute value of an optional amount, `0` when absent.
pub open spec fn abs_or_zero(x: Option<i64>) -> int {
    match x {
        Some(v) => if v < 0 {
            -v
        } else {
            v as int
        },
        None => 0,
    }
}

/// Amounts are never `i64::MIN`, whose absolute value does not fit.
pub open spec fn amounts_ok(b: &CreditBalance) -> bool {
    &&& b.on_demand_cap_cents != Some(i64::MIN)
    &&& b.on_demand_used_cents != Some(i64::MIN)
    &&& b.prepaid_balance_cents != Some(i64::MIN)
}

/// Top-up amounts are never `i64::MIN`.
pub open spec fn topup_ok(a: Option<&AutoTopupInfo>) -> bool {
    match a {
        Some(t) => t.topup_amount_cents != Some(i64::MIN) && t.max_amount_cents != Some(i64::MIN),
        None => true,
    }
}

/// The prepaid credits in cents, when positive.
pub open spec fn credits_of(b: &CreditBalance) -> Option<int> {
    match b.prepaid_balance_cents {
        Some(_) => if abs_or_zero(b.prepaid_balance_cents) > 0 {
            Some(abs_or_zero(b.prepaid_balance_cents))
        } else {
            None
        },
        None => None,
    }
}

/// Lines of the `/usage` summary.
pub open spec fn summary_lines(b: &CreditBalance, autotopup: Option<&AutoTopupInfo>) -> Seq<Seq<char>> {
    let first = seq![usage_label_spec(b.period_type) + ": "@ + dec_int(b.usage_floor as int) + "%"@];
    let with_reset = match b.period_end_display {
        Some(r) => first.push("Next reset: "@ + r@),
        None => first,
    };
    let with_credits = match credits_of(b) {
        Some(c) => {
            let base = with_reset.push(Seq::empty()).push("Credits: "@ + dollars(c as nat));
            match autotopup {
                Some(at) => if at.enabled && at.topup_amount_cents is Some {
                    let l = base.push(
                        "Auto topup: "@ + dollars(abs_or_zero(at.topup_amount_cents) as nat),
                    );
                    match at.max_amount_cents {
                        Some(_) => l.push(
                            "Max monthly topup: "@ + dollars(abs_or_zero(at.max_amount_cents) as nat),
                        ),
                        None => l,
                    }
                } else {
                    base.push("Auto topup: disabled"@)
                },
                None => base.push("Auto topup: disabled"@),
            }
        },
        None => with_reset,
    };
    if b.pay_as_you_go {
        with_credits.push(Seq::empty()).push(
            "Pay-as-you-go: "@ + dollars_cents(abs_or_zero(b.on_demand_used_cents) as nat)
                + " used of "@ + dollars_cents(abs_or_zero(b.on_demand_cap_cents) as nat)
                + " limit"@,
        )
    } else {
        with_credits
    }
}

/// Absolute value of an amount that is not `i64::MIN`.
fn abs_amount(x: Option<i64>) -> (r: i64)
    requires
        x != Some(i64::MIN),
    ensures
        r == abs_or_zero(x),
        r >= 0,
{
    match x {
        Some(v) => if v < 0 {
            -v
        } else {
            v
        },
        None => 0,
    }
}

/// Build the `/usage` summary block shown in scrollback: usage and the
/// next reset; the credits block only with a positive prepaid balance; the
/// pay-as-you-go line only when it is enabled.
pub fn format_usage_summary(balance: &CreditBalance, autotopup: Option<&AutoTopupInfo>) -> (r:
    String)
    requires
        amounts_ok(balance),
        topup_ok(autotopup),
    ensures
        r@ == join(summary_lines(balance, autotopup), "\n"@),
{
    let mut lines: Vec<Vec<char>> = Vec::new();
    let mut first = chars_of(balance.usage_label());
    extend_str(&mut first, ": ");
    extend(&mut first, dec_int_chars(balance.usage_floor).as_slice());
    extend_str(&mut first, "%");
    lines.push(first);
    if let Some(reset) = &balance.period_end_display {
        let mut l = chars_of("Next reset: ");
        extend_str(&mut l, reset.as_str());
        lines.push(l);
    }
    let prepaid = abs_amount(balance.prepaid_balance_cents);
    if balance.prepaid_balance_cents.is_some() && prepaid > 0 {
        lines.push(Vec::new());
        let mut l = chars_of("Credits: ");
        extend(&mut l, fmt_dollars(prepaid).as_slice());
        lines.push(l);
        let mut disabled = true;
        if let Some(at) = autotopup {
            if at.enabled && at.topup_amount_cents.is_some() {
                disabled = false;
                let mut t = chars_of("Auto topup: ");
                extend(&mut t, fmt_dollars(abs_amount(at.topup_amount_cents)).as_slice());
                lines.push(t);
                if at.max_amount_cents.is_some() {
                    let mut m = chars_of("Max monthly topup: ");
                    extend(&mut m, fmt_dollars(abs_amount(at.max_amount_cents)).as_slice());
                    lines.push(m);
                }
            }
        }
        if disabled {
            lines.push(chars_of("Auto topup: disabled"));
        }
    }
    if balance.pay_as_you_go {
        lines.push(Vec::new());
        let mut l = chars_of("Pay-as-you-go: ");
        extend(&mut l, fmt_dollars_cents(abs_amount(balance.on_demand_used_cents)).as_slice());
        extend_str(&mut l, " used of ");
        extend(&mut l, fmt_dollars_cents(abs_amount(balance.on_demand_cap_cents)).as_slice());
        extend_str(&mut l, " limit");
        lines.push(l);
    }
    assert(views(lines@) =~= summary_lines(balance, autotopup));
    let nl = chars_of("\n");
    string_of(join_exec(&lines, nl.as_slice()).as_slice())
}

/// Low-balance warning threshold, in cents.
pub const LOW_BALANCE_CENTS: i64 = 1000;

/// Pay-as-you-go critical threshold, in cents.
pub const PAY_AS_YOU_GO_CRITICAL_CENTS: i64 = 500;

/// The prompt's usage warning `(text, critical)`: none for gateway chat
/// sessions or when usage is hidden. With prepaid credits it appears only
/// at full usage and as the auto top-up rule allows; on pay-as-you-go it
/// names the dollars left in the cap once the allowance is spent; otherwise
/// it names the percentage left past 90%.
pub open spec fn usage_warning_spec(
    b: &CreditBalance,
    autotopup: Option<&AutoTopupInfo>,
    usage_visible: bool,
    gateway_chat: bool,
) -> Option<(Seq<char>, bool)> {
    if gateway_chat || !usage_visible {
        None
    } else {
        match credits_of(b) {
            None => if b.pay_as_you_go {
                if b.usage_full {
                    let cap = abs_or_zero(b.on_demand_cap_cents);
                    let used = abs_or_zero(b.on_demand_used_cents);
                    let remaining = if cap - used > 0 {
                        cap - used
                    } else {
                        0
                    };
                    if remaining <= 1000 {
                        Some(("Pay-as-you-go limit left: "@ + dollars(remaining as nat), remaining <= 500))
                    } else {
                        None
                    }
                } else {
                    None
                }
            } else if b.effective_over_90 {
                let remaining = if 100 - b.effective_floor > 0 {
                    100 - b.effective_floor
                } else {
                    0
                };
                Some((usage_label_spec(b.period_type) + " left: "@ + dec(remaining as nat) + "%"@, b.effective_over_95))
            } else {
                None
            },
            Some(c) => {
                let warn = Some(("Credits left: "@ + dollars(c as nat), true));
                if !b.usage_full {
                    None
                } else {
                    match autotopup {
                        None => None,
                        Some(at) => if !at.enabled {
                            if c <= 1000 {
                                warn
                            } else {
                                None
                            }
                        } else if at.max_amount_cents is None {
                            None
                        } else {
                            match at.topup_amount_cents {
                                Some(_) => if c < abs_or_zero(at.topup_amount_cents) {
                                    warn
                                } else {
                                    None
                                },
                                None => None,
                            }
                        },
                    }
                }
            },
        }
    }
}

/// View of a warning.
pub open spec fn warning_view(w: Option<(String, bool)>) -> Option<(Seq<char>, bool)> {
    match w {
        Some(x) => Some((x.0@, x.1)),
        None => None,
    }
}

/// Like [`usage_warning`], but suppresses output for gateway/chat-kind
/// sessions.
pub fn usage_warning_for_session(
    balance: &CreditBalance,
    autotopup: Option<&AutoTopupInfo>,
    usage_visible: bool,
    gateway_chat: bool,
) -> (r: Option<(String, bool)>)
    requires
        amounts_ok(balance),
        topup_ok(autotopup),
    ensures
        warning_view(r) == usage_warning_spec(balance, autotopup, usage_visible, gateway_chat),
{
    if gateway_chat || !usage_visible {
        return None;
    }
    let prepaid = abs_amount(balance.prepaid_balance_cents);
    if !(balance.prepaid_balance_cents.is_some() && prepaid > 0) {
        if balance.pay_as_you_go {
            if balance.usage_full {
                let cap = abs_amount(balance.on_demand_cap_cents);
                let used = abs_amount(balance.on_demand_used_cents);
                let remaining = if cap - used > 0 {
                    cap - used
                } else {
                    0
                };
                if remaining <= LOW_BALANCE_CENTS {
                    let mut t = chars_of("Pay-as-you-go limit left: ");
                    extend(&mut t, fmt_dollars(remaining).as_slice());
                    return Some((string_of(t.as_slice()), remaining <= PAY_AS_YOU_GO_CRITICAL_CENTS));
                }
            }
            return None;
        }
        if balance.effective_over_90 {
            let floor = balance.effective_floor as i128;
            let remaining: u64 = if floor < 100 {
                (100 - floor) as u64
            } else {
                0
            };
            let mut t = chars_of(balance.usage_label());
            extend_str(&mut t, " left: ");
            extend(&mut t, dec_chars(remaining).as_slice());
            extend_str(&mut t, "%");
            return Some((string_of(t.as_slice()), balance.effective_over_95));
        }
        return None;
    }
    if !balance.usage_full {
        return None;
    }
    let mut t = chars_of("Credits left: ");
    extend(&mut t, fmt_dollars(prepaid).as_slice());
    let warn = string_of(t.as_slice());
    match autotopup {
        None => None,
        Some(at) => {
            if !at.enabled {
                if prepaid <= LOW_BALANCE_CENTS {
                    Some((warn, true))
                } else {
                    None
                }
            } else if at.max_amount_cents.is_none() {
                None
            } else {
                match at.topup_amount_cents {
                    Some(_) => if prepaid < abs_amount(at.topup_amount_cents) {
                        Some((warn, true))
                    } else {
                        None
                    },
                    None => None,
                }
            }
        },
    }
}

/// The prompt's usage/credits warning as `(text, critical)`, or `None`.
pub fn usage_warning(balance: &CreditBalance, autotopup: Option<&AutoTopupInfo>, usage_visible: bool) -> (r: Option<(String, bool)>)
    requires
        amounts_ok(balance),
        topup_ok(autotopup),
    ensures
        warning_view(r) == usage_warning_spec(balance, autotopup, usage_visible, false),
{
    usage_warning_for_session(balance, autotopup, usage_visible, false)
}

/// A chip of the prompt's info line.
pub struct PromptFlag<C> {
    pub text: String,
    pub color: Option<C>,
    pub bold: bool,
}

/// View of a flag.
pub open spec fn flag_view<C>(f: PromptFlag<C>) -> (Seq<char>, Option<C>, bool) {
    (f.text@, f.color, f.bold)
}

/// Views of flags.
pub open spec fn flags_view<C>(v: Seq<PromptFlag<C>>) -> Seq<(Seq<char>, Option<C>, bool)> {
    v.map_values(|f: PromptFlag<C>| flag_view(f))
}

/// The mode flags kept on the info line among the first `n`.
pub open spec fn kept_modes<C>(flags: Seq<PromptFlag<C>>, n: int) -> Seq<PromptFlag<C>>
    decreases n,
{
    if n <= 0 {
        Seq::empty()
    } else {
        let rest = kept_modes(flags, n - 1);
        if flags[n - 1].text@ != "always-approve"@ {
            rest.push(flags[n - 1])
        } else {
            rest
        }
    }
}

/// The context chip (text and urgency color) and the quota chip of the
/// prompt's bottom border.
pub struct PromptBorderChips<C> {
    pub context: Option<(String, C)>,
    pub quota: Option<String>,
}

/// The context chip as a flag, when known.
pub open spec fn context_flags<C>(context: Option<(String, C)>) -> Seq<(Seq<char>, Option<C>, bool)> {
    match context {
        Some((t, c)) => seq![(t@, Some(c), false)],
        None => Seq::empty(),
    }
}

/// The quota chip as a flag, when shown.
pub open spec fn quota_flags<C>(quota: Option<String>) -> Seq<(Seq<char>, Option<C>, bool)> {
    match quota {
        Some(t) => seq![(t@, None, false)],
        None => Seq::empty(),
    }
}

impl<C: Copy> PromptBorderChips<C> {
    /// The chips of a prompt: the context chip as computed for it, and the
    /// quota chip (see [`quota_chip_for_prompt`]).
    pub fn for_prompt(
        context: Option<(String, C)>,
        billing_surface_visible: bool,
        chat_kind: bool,
        fetch_in_flight: bool,
        balance: Option<&CreditBalance>,
    ) -> (r: Self)
        ensures
            r.context == context,
            !billing_surface_visible || chat_kind ==> r.quota is None,
            billing_surface_visible && !chat_kind && fetch_in_flight ==> r.quota is Some
                && r.quota->0@ == "refreshing..."@,
            billing_surface_visible && !chat_kind && !fetch_in_flight ==> (match balance {
                Some(b) => r.quota is Some && exists|now: i64| r.quota->0@ == quota_chip_spec(b, now),
                None => r.quota is None,
            }),
    {
        PromptBorderChips {
            context,
            quota: quota_chip_for_prompt(billing_surface_visible, chat_kind, fetch_in_flight, balance),
        }
    }

    /// Context, then the mode flags without always-approve, then the quota.
    pub fn with_mode_flags(&self, mode_flags: Vec<PromptFlag<C>>) -> (r: Vec<PromptFlag<C>>)
        ensures
            flags_view(r@) == context_flags(self.context) + flags_view(
                kept_modes(mode_flags@, mode_flags@.len() as int),
            ) + quota_flags::<C>(self.quota),
    {
        let mut out: Vec<PromptFlag<C>> = Vec::new();
        match &self.context {
            Some((text, color)) => {
                out.push(PromptFlag { text: text.clone(), color: Some(*color), bold: false });
            },
            None => {},
        }
        let ghost head = flags_view(out@);
        assert(head =~= context_flags(self.context));
        let ghost all = mode_flags@;
        let mut rest = mode_flags;
        let total = rest.len();
        let mut i: usize = 0;
        while i < total
            invariant
                i <= total,
                total == all.len(),
                rest@ == all.subrange(i as int, all.len() as int),
                flags_view(out@) == head + flags_view(kept_modes(all, i as int)),
            decreases total - i,
        {
            let f = rest.remove(0);
            assert(f == all[i as int]);
            if keep_info_line_mode_flag(f.text.as_str()) {
                let ghost before = flags_view(out@);
                out.push(f);
                assert(flags_view(out@) =~= before.push(flag_view(all[i as int])));
                assert(flags_view(kept_modes(all, i + 1)) =~= flags_view(kept_modes(all, i as int)).push(
                    flag_view(all[i as int]),
                ));
            }
            assert(all.subrange(i as int, all.len() as int).drop_first() =~= all.subrange(
                i + 1,
                all.len() as int,
            ));
            i += 1;
        }
        let ghost mid = flags_view(out@);
        match &self.quota {
            Some(text) => {
                out.push(PromptFlag { text: text.clone(), color: None, bold: false });
            },
            None => {},
        }
        assert(flags_view(out@) =~= mid + quota_flags::<C>(self.quota));
        out
    }

    /// Context and quota only, for prompts that drop the mode flags.
    pub fn chip_only_flags(&self) -> (r: Vec<PromptFlag<C>>)
        ensures
            flags_view(r@) == context_flags(self.context) + quota_flags::<C>(self.quota),
    {
        let mut out: Vec<PromptFlag<C>> = Vec::new();
        match &self.context {
            Some((text, color)) => {
                out.push(PromptFlag { text: text.clone(), color: Some(*color), bold: false });
            },
            None => {},
        }
        let ghost head = flags_view(out@);
        match &self.quota {
            Some(text) => {
                out.push(PromptFlag { text: text.clone(), color: None, bold: false });
            },
            None => {},
        }
        assert(flags_view(out@) =~= context_flags(self.context) + quota_flags::<C>(self.quota));
        out
    }
}

/// The chip reports the allowance usage: it begins with the floored
/// allowance percentage and `%`, and two balances that differ only in the
/// total-budget usage give the same chip.
pub proof fn lemma_chip_reports_allowance_usage(b: CreditBalance, effective_floor: i64, now: i64)
    ensures
        quota_chip_spec(&b, now).subrange(0, dec_int(b.usage_floor as int).len() + 1int) == dec_int(
            b.usage_floor as int,
        ) + "%"@,
        quota_chip_spec(&b, now) == quota_chip_spec(&CreditBalance { effective_floor, ..b }, now),
{
    let d = dec_int(b.usage_floor as int);
    reveal_strlit("%");
    reveal_strlit("% (reset: ");
    let c = quota_chip_spec(&b, now);
    match b.period_end_secs {
        Some(end) => {
            let tail = "% (reset: "@ + reset_remaining_spec(secs_left(end, now)) + ")"@;
            assert(c =~= d + tail);
            assert(c.subrange(0, d.len() + 1int) =~= d + "%"@);
        },
        None => {
            assert(c.subrange(0, d.len() + 1int) =~= d + "%"@);
        },
    }
}

} // verus!
