//! The plugin marketplace in builds without marketplace support: no
//! sources, no official source, no keyword matches, and installs that
//! report the missing feature.

use vstd::prelude::*;
use crate::plugin::errors::MarketplaceInstallError;
use crate::text::owned;

verus! {

/// Display name of the official marketplace.
pub const OFFICIAL_SOURCE_NAME: &'static str = "xAI Official";

/// Clone URL of the official marketplace.
pub const OFFICIAL_SOURCE_GIT_URL: &'static str = "https://github.com/xai-org/plugin-marketplace.git";

/// No URL is the official source in this build.
pub fn is_official_source_url(url: &str) -> (r: bool)
    ensures
        !r,
{
    false
}

/// Keyword candidate for the install call-to-action.
pub struct KeywordCandidate<'a> {
    pub name: &'a str,
    pub domains: &'a [String],
    pub keywords: &'a [String],
}

/// Never a match in this build.
pub fn match_plugin_keyword(prompt: &str, candidates: &[KeywordCandidate<'_>]) -> (r: Option<usize>)
    ensures
        r is None,
{
    None
}

/// No sources are loaded in this build.
pub fn load_marketplace_sources() -> (r: Vec<()>)
    ensures
        r@.len() == 0,
{
    Vec::new()
}

/// No sources pass the allowlist filter in this build.
pub fn load_filtered_marketplace_sources() -> (r: Vec<()>)
    ensures
        r@.len() == 0,
{
    Vec::new()
}

/// The error of every marketplace operation in this build.
pub open spec fn unsupported_message() -> Seq<char> {
    "marketplace support is not compiled into this build"@
}

/// Installing from a marketplace is unsupported.
pub fn install_marketplace_plugin(name: &str, qualifier: Option<&str>) -> (r: Result<
    crate::plugin::errors::MarketplaceInstallOutcome,
    MarketplaceInstallError,
>)
    ensures
        r matches Err(MarketplaceInstallError::Other(m)) && m@ == unsupported_message(),
{
    Err(MarketplaceInstallError::Other(owned("marketplace support is not compiled into this build")))
}

/// Resolving a marketplace source is unsupported.
pub fn resolve_marketplace_source_name(name: &str, qualifier: Option<&str>) -> (r: Result<
    String,
    MarketplaceInstallError,
>)
    ensures
        r matches Err(MarketplaceInstallError::Other(m)) && m@ == unsupported_message(),
{
    Err(MarketplaceInstallError::Other(owned("marketplace support is not compiled into this build")))
}

/// No plugins were installed from a source in this build.
pub fn uninstall_marketplace_source_plugins(source_identity: &str) -> (r: Vec<String>)
    ensures
        r@.len() == 0,
{
    Vec::new()
}

/// No settings file is touched in this build.
pub fn try_remove_source_from_json_files(source_url_or_path: &str) -> (r: bool)
    ensures
        !r,
{
    false
}

/// The SHA pin policy of marketplace and git installs: without the
/// marketplace there is no policy layer to tighten it, so it is off.
pub fn marketplace_require_sha() -> (r: bool)
    ensures
        !r,
{
    false
}

} // verus!
