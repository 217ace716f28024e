//! The Codex model seeds that the ChatGPT provider adds to the model list,
//! and the synthetic auth and model providers it registers, with the rule
//! that entries the user or a remote prefetch already has always win.

use vstd::prelude::*;
use crate::responses::merge::str_eq;
use crate::text::owned;

verus! {

/// A reasoning effort a Codex model accepts (`none` is refused upstream
/// with HTTP 400, so it is never offered).
#[derive(Clone, Copy, PartialEq, Eq, Structural, Debug)]
pub enum ReasoningEffort {
    Low,
    Medium,
    High,
    Xhigh,
    Max,
}

/// The wire id of an effort.
pub open spec fn effort_id(e: ReasoningEffort) -> Seq<char> {
    match e {
        ReasoningEffort::Low => "low"@,
        ReasoningEffort::Medium => "medium"@,
        ReasoningEffort::High => "high"@,
        ReasoningEffort::Xhigh => "xhigh"@,
        ReasoningEffort::Max => "max"@,
    }
}

impl ReasoningEffort {
    /// The wire id (`low`, `medium`, `high`, `xhigh`, `max`).
    pub fn id(&self) -> (r: String)
        ensures
            r@ == effort_id(*self),
    {
        match self {
            ReasoningEffort::Low => owned("low"),
            ReasoningEffort::Medium => owned("medium"),
            ReasoningEffort::High => owned("high"),
            ReasoningEffort::Xhigh => owned("xhigh"),
            ReasoningEffort::Max => owned("max"),
        }
    }
}

/// One entry of the `/model` and `/effort` menus.
pub struct ReasoningEffortOption {
    pub id: String,
    pub value: ReasoningEffort,
    pub label: String,
    pub description: Option<String>,
    pub default: bool,
}

/// The menu entry for `value`.
fn effort_option(value: ReasoningEffort, label: &str, description: &str, default: bool) -> (r:
    ReasoningEffortOption)
    ensures
        r.id@ == effort_id(value),
        r.value == value,
        r.label@ == label@,
        r.description is Some && r.description->0@ == description@,
        r.default == default,
{
    ReasoningEffortOption {
        id: value.id(),
        value,
        label: owned(label),
        description: Some(owned(description)),
        default,
    }
}

/// The efforts of a menu, in order.
pub open spec fn effort_values(v: Seq<ReasoningEffortOption>) -> Seq<ReasoningEffort> {
    v.map_values(|o: ReasoningEffortOption| o.value)
}

/// Astra's menu: extra high, high, medium (the default), low.
pub fn astra_reasoning_efforts() -> (r: Vec<ReasoningEffortOption>)
    ensures
        effort_values(r@) == seq![
            ReasoningEffort::Xhigh,
            ReasoningEffort::High,
            ReasoningEffort::Medium,
            ReasoningEffort::Low,
        ],
        forall|i: int| 0 <= i < r@.len() ==> (#[trigger] r@[i]).id@ == effort_id(r@[i].value),
        forall|i: int| 0 <= i < r@.len() ==> (#[trigger] r@[i]).default == (r@[i].value
            == ReasoningEffort::Medium),
{
    let mut v: Vec<ReasoningEffortOption> = Vec::new();
    v.push(
        effort_option(
            ReasoningEffort::Xhigh,
            "Extra High Effort",
            "Extended reasoning for long agentic work",
            false,
        ),
    );
    v.push(
        effort_option(
            ReasoningEffort::High,
            "High Effort",
            "Heavier reasoning for complex implementation",
            false,
        ),
    );
    v.push(effort_option(ReasoningEffort::Medium, "Medium Effort", "Balanced reasoning (default)", true));
    v.push(effort_option(ReasoningEffort::Low, "Low Effort", "Faster, lighter reasoning", false));
    assert(effort_values(v@) =~= seq![
        ReasoningEffort::Xhigh,
        ReasoningEffort::High,
        ReasoningEffort::Medium,
        ReasoningEffort::Low,
    ]);
    v
}

/// Sol's menu: Astra's with max effort in front.
pub fn sol_reasoning_efforts() -> (r: Vec<ReasoningEffortOption>)
    ensures
        effort_values(r@) == seq![
            ReasoningEffort::Max,
            ReasoningEffort::Xhigh,
            ReasoningEffort::High,
            ReasoningEffort::Medium,
            ReasoningEffort::Low,
        ],
        forall|i: int| 0 <= i < r@.len() ==> (#[trigger] r@[i]).id@ == effort_id(r@[i].value),
        forall|i: int| 0 <= i < r@.len() ==> (#[trigger] r@[i]).default == (r@[i].value
            == ReasoningEffort::Medium),
{
    let mut v: Vec<ReasoningEffortOption> = Vec::new();
    v.push(effort_option(ReasoningEffort::Max, "Max Effort", "Deepest reasoning the model offers", false));
    let rest = astra_reasoning_efforts();
    let mut i: usize = 0;
    while i < rest.len()
        invariant
            i <= rest@.len(),
            v@.len() == i + 1,
            v@[0].value == ReasoningEffort::Max,
            !v@[0].default,
            v@[0].id@ == effort_id(ReasoningEffort::Max),
            forall|j: int|
                0 < j < v@.len() ==> (#[trigger] v@[j]).value == rest@[j - 1].value && v@[j].default
                    == rest@[j - 1].default && v@[j].id@ == effort_id(v@[j].value),
            effort_values(rest@) == seq![
                ReasoningEffort::Xhigh,
                ReasoningEffort::High,
                ReasoningEffort::Medium,
                ReasoningEffort::Low,
            ],
            forall|k: int| 0 <= k < rest@.len() ==> (#[trigger] rest@[k]).id@ == effort_id(
                rest@[k].value,
            ),
            forall|k: int| 0 <= k < rest@.len() ==> (#[trigger] rest@[k]).default == (
            rest@[k].value == ReasoningEffort::Medium),
        decreases rest@.len() - i,
    {
        let o = &rest[i];
        v.push(
            ReasoningEffortOption {
                id: o.value.id(),
                value: o.value,
                label: o.label.clone(),
                description: match &o.description {
                    Some(d) => Some(d.clone()),
                    None => None,
                },
                default: o.default,
            },
        );
        i = i + 1;
    }
    assert(effort_values(rest@).len() == 4);
    assert forall|j: int| 0 < j < 5 implies #[trigger] v@[j].value == effort_values(rest@)[j - 1] by {
        assert(v@[j].value == rest@[j - 1].value);
    }
    assert(effort_values(v@) =~= seq![
        ReasoningEffort::Max,
        ReasoningEffort::Xhigh,
        ReasoningEffort::High,
        ReasoningEffort::Medium,
        ReasoningEffort::Low,
    ]);
    assert forall|i: int| 0 <= i < v@.len() implies (#[trigger] v@[i]).id@ == effort_id(v@[i].value)
        && v@[i].default == (v@[i].value == ReasoningEffort::Medium) by {
        if i > 0 {
            assert(v@[i].value == rest@[i - 1].value);
        }
    }
    v
}

/// A Codex model seed: served by the Codex Responses backend with the
/// ChatGPT subscription's own credentials.
pub struct CodexModelSeed {
    pub model: String,
    pub name: String,
    pub model_family: String,
    pub base_url: String,
    pub context_window: u64,
    pub supports_backend_search: bool,
    pub supports_reasoning_effort: bool,
    pub reasoning_effort: ReasoningEffort,
    pub reasoning_efforts: Vec<ReasoningEffortOption>,
    pub stream_tool_calls: bool,
    /// The value of the `originator` header.
    pub originator: String,
    /// The auth provider that supplies the bearer token.
    pub auth_provider: String,
}

/// The seed of one Codex model.
fn codex_seed(model: &str, name: &str, context_window: u64, efforts: Vec<ReasoningEffortOption>) -> (r:
    CodexModelSeed)
    ensures
        r.model@ == model@,
        r.name@ == name@,
        r.model_family@ == "openai"@,
        r.base_url@ == "https://chatgpt.com/backend-api/codex"@,
        r.context_window == context_window,
        !r.supports_backend_search,
        r.supports_reasoning_effort,
        r.reasoning_effort == ReasoningEffort::Medium,
        r.reasoning_efforts@ == efforts@,
        !r.stream_tool_calls,
        r.originator@ == "grok-build"@,
        r.auth_provider@ == "chatgpt"@,
{
    CodexModelSeed {
        model: owned(model),
        name: owned(name),
        model_family: owned("openai"),
        base_url: owned("https://chatgpt.com/backend-api/codex"),
        context_window,
        supports_backend_search: false,
        supports_reasoning_effort: true,
        reasoning_effort: ReasoningEffort::Medium,
        reasoning_efforts: efforts,
        stream_tool_calls: false,
        originator: owned("grok-build"),
        auth_provider: owned("chatgpt"),
    }
}

/// The seeds, keyed by model id: `gpt-6-astra` (272,000 tokens) and then
/// `gpt-5.6-sol` (1,050,000 tokens).
pub fn catalog_entries() -> (r: Vec<(String, CodexModelSeed)>)
    ensures
        r@.len() == 2,
        r@[0].0@ == "gpt-6-astra"@,
        r@[0].1.model@ == "gpt-6-astra"@,
        r@[0].1.name@ == "GPT-6 Astra"@,
        r@[0].1.context_window == 272000,
        effort_values(r@[0].1.reasoning_efforts@) == seq![
            ReasoningEffort::Xhigh,
            ReasoningEffort::High,
            ReasoningEffort::Medium,
            ReasoningEffort::Low,
        ],
        r@[1].0@ == "gpt-5.6-sol"@,
        r@[1].1.model@ == "gpt-5.6-sol"@,
        r@[1].1.name@ == "GPT-5.6 Sol"@,
        r@[1].1.context_window == 1050000,
        effort_values(r@[1].1.reasoning_efforts@) == seq![
            ReasoningEffort::Max,
            ReasoningEffort::Xhigh,
            ReasoningEffort::High,
            ReasoningEffort::Medium,
            ReasoningEffort::Low,
        ],
        forall|i: int|
            0 <= i < 2 ==> {
                let s = (#[trigger] r@[i]).1;
                &&& s.model_family@ == "openai"@
                &&& s.base_url@ == "https://chatgpt.com/backend-api/codex"@
                &&& !s.supports_backend_search
                &&& s.supports_reasoning_effort
                &&& s.reasoning_effort == ReasoningEffort::Medium
                &&& !s.stream_tool_calls
                &&& s.originator@ == "grok-build"@
                &&& s.auth_provider@ == "chatgpt"@
            },
{
    let mut v: Vec<(String, CodexModelSeed)> = Vec::new();
    v.push(
        (owned("gpt-6-astra"), codex_seed("gpt-6-astra", "GPT-6 Astra", 272000, astra_reasoning_efforts())),
    );
    v.push(
        (owned("gpt-5.6-sol"), codex_seed("gpt-5.6-sol", "GPT-5.6 Sol", 1050000, sol_reasoning_efforts())),
    );
    v
}

/// Whether an entry is keyed `key`.
pub open spec fn has_key<T>(entries: Seq<(String, T)>, key: Seq<char>) -> bool {
    exists|i: int| 0 <= i < entries.len() && (#[trigger] entries[i]).0@ == key
}

/// `base` with each seed appended, in order, whose key is not there yet.
pub open spec fn with_missing<T>(base: Seq<(String, T)>, seeds: Seq<(String, T)>) -> Seq<(String, T)>
    decreases seeds.len(),
{
    if seeds.len() == 0 {
        base
    } else {
        let m = with_missing(base, seeds.drop_last());
        if has_key(m, seeds.last().0@) {
            m
        } else {
            m.push(seeds.last())
        }
    }
}

/// Whether some entry is keyed `key`.
fn contains_key<T>(entries: &Vec<(String, T)>, key: &String) -> (r: bool)
    ensures
        r == has_key(entries@, key@),
{
    let mut i: usize = 0;
    while i < entries.len()
        invariant
            i <= entries@.len(),
            forall|j: int| 0 <= j < i ==> (#[trigger] entries@[j]).0@ != key@,
        decreases entries@.len() - i,
    {
        if str_eq(&entries[i].0, key) {
            return true;
        }
        i = i + 1;
    }
    false
}

/// Appends each seed, in order, whose key `entries` does not hold yet:
/// entries already there win and stay as they were.
pub fn insert_missing<T>(entries: &mut Vec<(String, T)>, seeds: Vec<(String, T)>)
    ensures
        final(entries)@ == with_missing(old(entries)@, seeds@),
{
    let ghost base = entries@;
    let ghost given = seeds@;
    let mut seeds = seeds;
    let mut rest: Vec<(String, T)> = Vec::new();
    while seeds.len() > 0
        invariant
            seeds@ + rest@.reverse() == given,
        decreases seeds@.len(),
    {
        let e = seeds.pop().unwrap();
        proof {
            assert(seeds@.push(e) + rest@.reverse() =~= seeds@ + rest@.push(e).reverse());
        }
        rest.push(e);
    }
    // `rest` holds the seeds in reverse; pop from its end to go in order.
    let ghost all = rest@.reverse();
    proof {
        assert(all =~= given);
    }
    let ghost mut done: int = 0;
    while rest.len() > 0
        invariant
            0 <= done <= all.len(),
            rest@.len() + done == all.len(),
            rest@.reverse() == all.subrange(done, all.len() as int),
            entries@ == with_missing(base, all.take(done)),
        decreases rest@.len(),
    {
        let ghost prev = rest@;
        let e = rest.pop().unwrap();
        proof {
            let full = all.subrange(done, all.len() as int);
            assert(prev =~= rest@.push(e));
            assert(prev.reverse()[0] == prev[prev.len() - 1]);
            assert(e == all[done]) by {
                assert(full[0] == all[done]);
            }
            assert(all.take(done + 1).drop_last() =~= all.take(done));
            assert(all.take(done + 1).last() == all[done]);
            assert(rest@.reverse() =~= all.subrange(done + 1, all.len() as int)) by {
                assert forall|k: int| 0 <= k < rest@.len() implies rest@.reverse()[k] == all[done + 1
                    + k] by {
                    assert(prev.reverse()[k + 1] == full[k + 1]);
                    assert(prev.reverse()[k + 1] == prev[prev.len() - 1 - (k + 1)]);
                    assert(rest@.reverse()[k] == rest@[rest@.len() - 1 - k]);
                }
            }
        }
        if !contains_key(entries, &e.0) {
            entries.push(e);
        }
        proof {
            done = done + 1;
        }
    }
    proof {
        assert(all.take(done) =~= all);
    }
}

/// Adds the Codex seeds that `resolved` lacks, so they survive a remote
/// prefetch replacing the default model map; existing keys (prefetched or
/// the user's `[model.*]`) win.
pub fn merge_catalog(resolved: &mut Vec<(String, CodexModelSeed)>)
    ensures
        exists|seeds: Seq<(String, CodexModelSeed)>|
            #![trigger with_missing(old(resolved)@, seeds)]
            final(resolved)@ == with_missing(old(resolved)@, seeds) && seeds.len() == 2
                && seeds[0].0@ == "gpt-6-astra"@ && seeds[1].0@ == "gpt-5.6-sol"@,
{
    let seeds = catalog_entries();
    let ghost s = seeds@;
    insert_missing(resolved, seeds);
    assert(resolved@ == with_missing(old(resolved)@, s));
}

/// The auth provider that runs `grok chatgpt-token` for a bearer token.
pub struct AuthProviderSeed {
    pub command: String,
    pub args: Vec<String>,
    pub token_ttl_secs: u64,
    pub timeout_secs: u64,
}

/// `grok chatgpt-token`, tokens kept 3300 seconds, 30 seconds to answer.
pub fn synthetic_auth_provider() -> (r: AuthProviderSeed)
    ensures
        r.command@ == "grok"@,
        r.args@.len() == 1 && r.args@[0]@ == "chatgpt-token"@,
        r.token_ttl_secs == 3300,
        r.timeout_secs == 30,
{
    let mut args: Vec<String> = Vec::new();
    args.push(owned("chatgpt-token"));
    AuthProviderSeed { command: owned("grok"), args, token_ttl_secs: 3300, timeout_secs: 30 }
}

/// The model provider for the Codex Responses backend.
pub struct ModelProviderSeed {
    pub base_url: String,
    /// The API backend, `responses`.
    pub api_backend: String,
    pub auth_provider: String,
    /// The value of the `originator` header.
    pub originator: String,
}

/// The Codex backend through the `chatgpt` auth provider, with the
/// `originator: grok-build` header.
pub fn synthetic_model_provider() -> (r: ModelProviderSeed)
    ensures
        r.base_url@ == "https://chatgpt.com/backend-api/codex"@,
        r.api_backend@ == "responses"@,
        r.auth_provider@ == "chatgpt"@,
        r.originator@ == "grok-build"@,
{
    ModelProviderSeed {
        base_url: owned("https://chatgpt.com/backend-api/codex"),
        api_backend: owned("responses"),
        auth_provider: owned("chatgpt"),
        originator: owned("grok-build"),
    }
}

/// Registers the synthetic `chatgpt` auth and model providers where the
/// user did not define providers of that name; the user's win.
pub fn inject_synthetic_providers(
    auth_providers: &mut Vec<(String, AuthProviderSeed)>,
    model_providers: &mut Vec<(String, ModelProviderSeed)>,
)
    ensures
        has_key(old(auth_providers)@, "chatgpt"@) ==> final(auth_providers)@ == old(auth_providers)@,
        !has_key(old(auth_providers)@, "chatgpt"@) ==> {
            &&& final(auth_providers)@.len() == old(auth_providers)@.len() + 1
            &&& final(auth_providers)@.drop_last() == old(auth_providers)@
            &&& final(auth_providers)@.last().0@ == "chatgpt"@
            &&& final(auth_providers)@.last().1.command@ == "grok"@
        },
        has_key(old(model_providers)@, "chatgpt"@) ==> final(model_providers)@ == old(
            model_providers,
        )@,
        !has_key(old(model_providers)@, "chatgpt"@) ==> {
            &&& final(model_providers)@.len() == old(model_providers)@.len() + 1
            &&& final(model_providers)@.drop_last() == old(model_providers)@
            &&& final(model_providers)@.last().0@ == "chatgpt"@
            &&& final(model_providers)@.last().1.base_url@ == "https://chatgpt.com/backend-api/codex"@
        },
{
    let key = owned("chatgpt");
    if !contains_key(auth_providers, &key) {
        auth_providers.push((owned("chatgpt"), synthetic_auth_provider()));
    }
    if !contains_key(model_providers, &key) {
        model_providers.push((owned("chatgpt"), synthetic_model_provider()));
    }
}

/// Entries already present keep their place and their value through a
/// merge, and every seed's key is present afterwards.
pub proof fn lemma_existing_entries_win<T>(base: Seq<(String, T)>, seeds: Seq<(String, T)>)
    ensures
        with_missing(base, seeds).len() >= base.len(),
        with_missing(base, seeds).subrange(0, base.len() as int) == base,
        forall|i: int| 0 <= i < seeds.len() ==> has_key(with_missing(base, seeds), (#[trigger] seeds[i]).0@),
        forall|k: Seq<char>| has_key(base, k) ==> has_key(with_missing(base, seeds), k),
    decreases seeds.len(),
{
    if seeds.len() > 0 {
        let m = with_missing(base, seeds.drop_last());
        lemma_existing_entries_win(base, seeds.drop_last());
        assert forall|i: int| 0 <= i < seeds.len() implies has_key(
            with_missing(base, seeds),
            (#[trigger] seeds[i]).0@,
        ) by {
            let w = with_missing(base, seeds);
            if i < seeds.len() - 1 {
                assert(seeds[i] == seeds.drop_last()[i]);
                let j = choose|j: int| 0 <= j < m.len() && (#[trigger] m[j]).0@ == seeds[i].0@;
                assert(w[j] == m[j]);
            } else if !has_key(m, seeds.last().0@) {
                assert(w[m.len() as int] == seeds.last());
            }
        }
        assert forall|k: Seq<char>| has_key(base, k) implies has_key(with_missing(base, seeds), k) by {
            let w = with_missing(base, seeds);
            let j = choose|j: int| 0 <= j < m.len() && (#[trigger] m[j]).0@ == k;
            assert(w[j] == m[j]);
        }
        assert(with_missing(base, seeds).subrange(0, base.len() as int) =~= base) by {
            assert(m.subrange(0, base.len() as int) == base);
        }
    }
}

} // verus!
