//! The Codex backend URL, the compatibility policy of Responses requests,
//! and how ChatGPT credentials attach to a sampler.

use vstd::prelude::*;
use crate::responses::model::opt_view;
use crate::text::{chars_of, chars_eq, starts_with, starts_with_exec};

verus! {

/// Name of the synthetic ChatGPT auth provider.
pub open spec fn auth_provider_name() -> Seq<char> {
    "chatgpt"@
}

/// The Codex Responses base URL.
pub open spec fn codex_base_url() -> Seq<char> {
    "https://chatgpt.com/backend-api/codex"@
}

/// What `reqwest::Url::parse` gives for `s`: its scheme, host and path, or
/// nothing when `s` is not a URL.
pub uninterp spec fn parsed_url(s: Seq<char>) -> Option<(Seq<char>, Option<Seq<char>>, Seq<char>)>;

/// Parses a URL with `reqwest::Url::parse` (the `url` crate) and returns
/// its scheme, host (`host_str`) and path. The contract names the result
/// and states nothing more of the parser.
#[verifier::external_body]
fn url_parts(s: &str) -> (r: Option<(String, Option<String>, String)>)
    ensures
        match r {
            Some((scheme, host, path)) => parsed_url(s@) == Some((scheme@, opt_view(host), path@)),
            None => parsed_url(s@) is None,
        },
{
    match reqwest::Url::parse(s) {
        Ok(u) => Some((u.scheme().to_owned(), u.host_str().map(|h| h.to_owned()), u.path().to_owned())),
        Err(_) => None,
    }
}

/// An HTTPS URL on `chatgpt.com` (or `www.`) whose path is the Codex
/// backend or below it.
pub open spec fn is_codex_backend_url_spec(base_url: Seq<char>) -> bool {
    match parsed_url(base_url) {
        Some((scheme, host, path)) => scheme == "https"@ && (host == Some("chatgpt.com"@) || host
            == Some("www.chatgpt.com"@)) && (path == "/backend-api/codex"@ || starts_with(
            path,
            "/backend-api/codex/"@,
        )),
        None => false,
    }
}

/// Whether `s` holds exactly `lit`.
fn text_is(s: &String, lit: &str) -> (r: bool)
    ensures
        r == (s@ == lit@),
{
    let a = chars_of(s.as_str());
    let b = chars_of(lit);
    chars_eq(a.as_slice(), b.as_slice())
}

/// Whether `base_url` is the Codex backend.
pub fn is_codex_backend_url(base_url: &str) -> (r: bool)
    ensures
        r == is_codex_backend_url_spec(base_url@),
{
    match url_parts(base_url) {
        Some((scheme, host, path)) => {
            if !text_is(&scheme, "https") {
                return false;
            }
            let host_ok = match &host {
                Some(h) => text_is(h, "chatgpt.com") || text_is(h, "www.chatgpt.com"),
                None => false,
            };
            if !host_ok {
                return false;
            }
            let p = chars_of(path.as_str());
            let prefix = chars_of("/backend-api/codex/");
            text_is(&path, "/backend-api/codex") || starts_with_exec(p.as_slice(), prefix.as_slice())
        },
        None => false,
    }
}

/// An HTTPS URL with a host: the only endpoints ChatGPT credentials are
/// sent to.
pub open spec fn is_https_with_host(base_url: Seq<char>) -> bool {
    match parsed_url(base_url) {
        Some((scheme, host, _)) => scheme == "https"@ && host is Some,
        None => false,
    }
}

/// The part of a sampler configuration the compatibility policy touches.
pub struct ExtrasConfig<C, T> {
    pub base_url: String,
    pub include_encrypted_reasoning: bool,
    pub supports_backend_search: bool,
    pub compactions_remaining: Option<C>,
    pub compaction_at_tokens: Option<T>,
    pub extra_response_includes: Vec<String>,
    pub responses_system_as_instructions: bool,
}

/// `after` is `before` with the compatibility policy applied.
pub open spec fn extras_policy_applied<C, T>(
    before: ExtrasConfig<C, T>,
    after: ExtrasConfig<C, T>,
    first_party: bool,
) -> bool {
    &&& after.base_url == before.base_url
    &&& is_codex_backend_url_spec(before.base_url@) ==> {
        &&& !after.include_encrypted_reasoning
        &&& !after.supports_backend_search
        &&& after.compactions_remaining is None
        &&& after.compaction_at_tokens is None
        &&& after.extra_response_includes@.len() == 0
        &&& after.responses_system_as_instructions
    }
    &&& !is_codex_backend_url_spec(before.base_url@) && first_party ==> {
        &&& after.include_encrypted_reasoning
        &&& !after.responses_system_as_instructions
        &&& after.supports_backend_search == before.supports_backend_search
        &&& after.compactions_remaining == before.compactions_remaining
        &&& after.compaction_at_tokens == before.compaction_at_tokens
        &&& after.extra_response_includes == before.extra_response_includes
    }
    &&& !is_codex_backend_url_spec(before.base_url@) && !first_party ==> after == before
}

/// The same policy settings, comparing the includes by their contents.
pub open spec fn same_policy_settings<C, T>(a: ExtrasConfig<C, T>, b: ExtrasConfig<C, T>) -> bool {
    &&& a.base_url == b.base_url
    &&& a.include_encrypted_reasoning == b.include_encrypted_reasoning
    &&& a.supports_backend_search == b.supports_backend_search
    &&& a.compactions_remaining == b.compactions_remaining
    &&& a.compaction_at_tokens == b.compaction_at_tokens
    &&& a.extra_response_includes@ == b.extra_response_includes@
    &&& a.responses_system_as_instructions == b.responses_system_as_instructions
}

/// Applying the compatibility policy again changes nothing: a configuration
/// can be restamped.
pub proof fn lemma_extras_policy_idempotent<C, T>(
    a: ExtrasConfig<C, T>,
    b: ExtrasConfig<C, T>,
    c: ExtrasConfig<C, T>,
    first_party: bool,
)
    requires
        extras_policy_applied(a, b, first_party),
        extras_policy_applied(b, c, first_party),
    ensures
        same_policy_settings(b, c),
{
    if is_codex_backend_url_spec(a.base_url@) {
        assert(b.extra_response_includes@ =~= c.extra_response_includes@);
    }
}

/// Restricts known Codex incompatibilities: on the Codex backend no
/// encrypted reasoning, backend search, compaction or extra includes, and
/// the system prompt goes in `instructions`; on a first-party host
/// encrypted reasoning is on and the system prompt stays a message; any
/// other provider keeps its configured capabilities. `first_party` is
/// whether the base URL is the CLI chat proxy or an `x.ai` HTTPS host.
pub fn apply_extras_policy<C, T>(config: &mut ExtrasConfig<C, T>, first_party: bool)
    ensures
        extras_policy_applied(*old(config), *final(config), first_party),
{
    if is_codex_backend_url(config.base_url.as_str()) {
        config.include_encrypted_reasoning = false;
        config.supports_backend_search = false;
        config.compactions_remaining = None;
        config.compaction_at_tokens = None;
        config.extra_response_includes = Vec::new();
        config.responses_system_as_instructions = true;
    } else if first_party {
        config.include_encrypted_reasoning = true;
        config.responses_system_as_instructions = false;
    }
}

/// A model reports against ChatGPT when its base URL is the Codex backend
/// or it names the ChatGPT auth provider.
pub fn is_codex_model(base_url: &str, auth_provider: Option<&str>) -> (r: bool)
    ensures
        r == (is_codex_backend_url_spec(base_url@) || match auth_provider {
            Some(p) => p@ == auth_provider_name(),
            None => false,
        }),
{
    if is_codex_backend_url(base_url) {
        return true;
    }
    match auth_provider {
        Some(p) => {
            let a = chars_of(p);
            let b = chars_of("chatgpt");
            chars_eq(a.as_slice(), b.as_slice())
        },
        None => false,
    }
}

/// How ChatGPT credentials attach to a sampler.
#[derive(Clone, Copy, PartialEq, Eq, Structural, Debug)]
pub enum AttachPlan {
    /// Not an HTTPS endpoint: drop the API key and install a resolver that
    /// never yields a bearer.
    Disable,
    /// The ChatGPT resolver and header injector are already installed.
    Keep,
    /// Install the ChatGPT resolver, and wrap the existing header injector
    /// when it is not the ChatGPT one already.
    Install { wrap_injector: bool },
}

/// The bearer policy for `base_url` given whether the ChatGPT injector and
/// resolver are installed already.
pub open spec fn attach_plan_spec(base_url: Seq<char>, injector_is_chatgpt: bool, resolver_is_chatgpt: bool) -> AttachPlan {
    if !is_https_with_host(base_url) {
        AttachPlan::Disable
    } else if injector_is_chatgpt && resolver_is_chatgpt {
        AttachPlan::Keep
    } else {
        AttachPlan::Install { wrap_injector: !injector_is_chatgpt }
    }
}

/// A repeated stamp reuses what the first installed: once the ChatGPT
/// resolver and injector are in place the plan is to keep them; the first
/// stamp wraps the existing injector exactly when it was not the ChatGPT
/// one, so an inner injector is preserved and never wrapped twice.
pub proof fn lemma_repeated_stamp_keeps(base_url: Seq<char>, injector_is_chatgpt: bool, resolver_is_chatgpt: bool)
    requires
        attach_plan_spec(base_url, injector_is_chatgpt, resolver_is_chatgpt) is Install,
    ensures
        attach_plan_spec(base_url, true, true) == AttachPlan::Keep,
        attach_plan_spec(base_url, injector_is_chatgpt, resolver_is_chatgpt)->wrap_injector
            == !injector_is_chatgpt,
{
}

/// The bearer policy of a Codex sampler: credentials go only to HTTPS
/// endpoints with a host; an already stamped configuration is kept, so a
/// repeated stamp reuses the installed resolver and injector.
pub fn attach_credentials(base_url: &str, injector_is_chatgpt: bool, resolver_is_chatgpt: bool) -> (r:
    AttachPlan)
    ensures
        r == attach_plan_spec(base_url@, injector_is_chatgpt, resolver_is_chatgpt),
{
    let https = match url_parts(base_url) {
        Some((scheme, host, _)) => text_is(&scheme, "https") && host.is_some(),
        None => false,
    };
    if !https {
        AttachPlan::Disable
    } else if injector_is_chatgpt && resolver_is_chatgpt {
        AttachPlan::Keep
    } else {
        AttachPlan::Install { wrap_injector: !injector_is_chatgpt }
    }
}

/// The credential step of stamping a sampler for `model`: none unless the
/// model reports against ChatGPT, else the bearer policy.
pub fn stamp_sampler_config(
    base_url: &str,
    auth_provider: Option<&str>,
    injector_is_chatgpt: bool,
    resolver_is_chatgpt: bool,
) -> (r: Option<AttachPlan>)
    ensures
        !(is_codex_backend_url_spec(base_url@) || match auth_provider {
            Some(p) => p@ == auth_provider_name(),
            None => false,
        }) ==> r is None,
        (is_codex_backend_url_spec(base_url@) || match auth_provider {
            Some(p) => p@ == auth_provider_name(),
            None => false,
        }) ==> r == Some(attach_plan_spec(base_url@, injector_is_chatgpt, resolver_is_chatgpt)),
{
    if !is_codex_model(base_url, auth_provider) {
        return None;
    }
    Some(attach_credentials(base_url, injector_is_chatgpt, resolver_is_chatgpt))
}

} // verus!
