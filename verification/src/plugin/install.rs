//! Installing a marketplace entry and removing what a source installed:
//! the outcomes reported, which repos a removed source takes with it, and
//! the scope whose plugin data is cleaned up.

use vstd::prelude::*;
use super::cli::{identity_spec, MarketplaceSource, SourceKind};
use super::errors::{strs, MarketplaceInstallOutcome, UninstallError, UninstallOutcome};
use crate::paths::{path_starts_with, path_starts_with_exec};
use crate::responses::merge::str_eq;
use crate::text::{chars_eq, chars_of, owned};

verus! {

/// The outcome of an entry found installed already: the registry's repo
/// and plugin names, no warnings and no note.
pub fn already_installed_outcome(
    source: &MarketplaceSource,
    plugin_subdir: String,
    repo_key: String,
    plugin_names: Vec<String>,
) -> (r: MarketplaceInstallOutcome)
    ensures
        r.repo_key == repo_key,
        r.plugin_names == plugin_names,
        r.warnings@.len() == 0,
        r.source_display_name@ == source.name@,
        r.plugin_subdir == plugin_subdir,
        r.source_is_git == (source.kind is Git),
        r.already_installed,
        r.other_copies_note is None,
{
    MarketplaceInstallOutcome {
        repo_key,
        plugin_names,
        warnings: Vec::new(),
        source_display_name: source.name.clone(),
        plugin_subdir,
        source_is_git: match &source.kind {
            SourceKind::Git { .. } => true,
            SourceKind::Local { .. } => false,
        },
        already_installed: true,
        other_copies_note: None,
    }
}

/// The outcome of a fresh install: the installed repo, and the plugin names
/// and warnings of the post-install step.
pub fn installed_outcome(
    source: &MarketplaceSource,
    plugin_subdir: String,
    repo_key: String,
    plugin_names: Vec<String>,
    warnings: Vec<String>,
) -> (r: MarketplaceInstallOutcome)
    ensures
        r.repo_key == repo_key,
        r.plugin_names == plugin_names,
        r.warnings == warnings,
        r.source_display_name@ == source.name@,
        r.plugin_subdir == plugin_subdir,
        r.source_is_git == (source.kind is Git),
        !r.already_installed,
        r.other_copies_note is None,
{
    MarketplaceInstallOutcome {
        repo_key,
        plugin_names,
        warnings,
        source_display_name: source.name.clone(),
        plugin_subdir,
        source_is_git: match &source.kind {
            SourceKind::Git { .. } => true,
            SourceKind::Local { .. } => false,
        },
        already_installed: false,
        other_copies_note: None,
    }
}

/// The provenance an install records: where the source is, its name, and
/// the entry's directory in it.
pub struct MarketplaceProvenance {
    pub source_url_or_path: String,
    pub source_display_name: String,
    pub plugin_subdir: String,
}

/// The provenance of an install from `source`.
pub fn provenance_for(source: &MarketplaceSource, plugin_subdir: &str) -> (r: MarketplaceProvenance)
    ensures
        r.source_url_or_path@ == identity_spec(*source),
        r.source_display_name@ == source.name@,
        r.plugin_subdir@ == plugin_subdir@,
{
    MarketplaceProvenance {
        source_url_or_path: source.identity(),
        source_display_name: source.name.clone(),
        plugin_subdir: owned(plugin_subdir),
    }
}

/// What removing a source reads of an installed repo.
pub struct InstalledRepoInfo {
    pub key: String,
    pub path: String,
    /// The source it was installed from, for marketplace installs.
    pub marketplace_source: Option<String>,
}

/// Repo `r` was installed from the source `identity`.
pub open spec fn from_source(r: InstalledRepoInfo, identity: Seq<char>) -> bool {
    match r.marketplace_source {
        Some(s) => s@ == identity,
        None => false,
    }
}

/// Positions of the repos installed from `identity` among the first `n`.
pub open spec fn from_source_upto(repos: Seq<InstalledRepoInfo>, identity: Seq<char>, n: int) -> Seq<usize>
    decreases n,
{
    if n <= 0 {
        Seq::empty()
    } else {
        let rest = from_source_upto(repos, identity, n - 1);
        if from_source(repos[n - 1], identity) {
            rest.push((n - 1) as usize)
        } else {
            rest
        }
    }
}

/// The repos removing the source `identity` uninstalls, in registry order.
pub fn uninstall_marketplace_source_plugins(identity: &str, repos: &Vec<InstalledRepoInfo>) -> (r: Vec<usize>)
    ensures
        r@ == from_source_upto(repos@, identity@, repos@.len() as int),
{
    let want = owned(identity);
    let mut out: Vec<usize> = Vec::new();
    let mut i: usize = 0;
    while i < repos.len()
        invariant
            i <= repos@.len(),
            want@ == identity@,
            out@ == from_source_upto(repos@, identity@, i as int),
        decreases repos@.len() - i,
    {
        let hit = match &repos[i].marketplace_source {
            Some(s) => str_eq(s, &want),
            None => false,
        };
        if hit {
            out.push(i);
        }
        i += 1;
    }
    out
}

/// Whose plugin data an uninstall cleans up.
#[derive(Clone, Copy, PartialEq, Eq, Structural, Debug)]
pub enum PluginScope {
    /// Installed under the home directory.
    User,
    /// Installed from a configured path elsewhere.
    ConfigPath,
}

/// The scope of an installed repo: the user's when its path lies under the
/// home directory, component by component.
pub fn plugin_scope(path: &str, home: &Option<String>) -> (r: PluginScope)
    ensures
        r == (match home {
            Some(h) => if path_starts_with(path@, h@) {
                PluginScope::User
            } else {
                PluginScope::ConfigPath
            },
            None => PluginScope::ConfigPath,
        }),
{
    match home {
        Some(h) => if path_starts_with_exec(path, h.as_str()) {
            PluginScope::User
        } else {
            PluginScope::ConfigPath
        },
        None => PluginScope::ConfigPath,
    }
}

/// The plugins of a repo other than `name`, in order, among the first `n`.
pub open spec fn others_upto(plugins: Seq<Seq<char>>, name: Seq<char>, n: int) -> Seq<Seq<char>>
    decreases n,
{
    if n <= 0 {
        Seq::empty()
    } else {
        let rest = others_upto(plugins, name, n - 1);
        if plugins[n - 1] != name {
            rest.push(plugins[n - 1])
        } else {
            rest
        }
    }
}

/// Uninstalling `name`: not found when no repo holds it (`found` is the
/// registry's answer: the repo key and that repo's plugins); a repo holding
/// other plugins needs confirmation, listing them and the total removed;
/// otherwise the whole repo's plugins are removed.
pub fn uninstall_plugin(name: &str, found: Option<(String, Vec<String>)>, confirm: bool) -> (r: Result<
    UninstallOutcome,
    UninstallError,
>)
    ensures
        match found {
            None => r matches Err(UninstallError::NotFound { name: n }) && n@ == name@,
            Some((key, plugins)) => if plugins@.len() > 1 && !confirm {
                r matches Err(UninstallError::NeedsConfirm { name: n, repo_key, other_plugins, total })
                    && n@ == name@ && repo_key == key && strs(other_plugins@) == others_upto(
                    strs(plugins@),
                    name@,
                    plugins@.len() as int,
                ) && total == plugins@.len()
            } else {
                r matches Ok(o) && o.repo_key == key && o.removed_plugins == plugins
            },
        },
{
    match found {
        None => Err(UninstallError::NotFound { name: owned(name) }),
        Some((repo_key, plugins)) => {
            if plugins.len() > 1 && !confirm {
                let want = chars_of(name);
                let mut others: Vec<String> = Vec::new();
                let mut i: usize = 0;
                while i < plugins.len()
                    invariant
                        i <= plugins@.len(),
                        want@ == name@,
                        strs(others@) == others_upto(strs(plugins@), name@, i as int),
                    decreases plugins@.len() - i,
                {
                    let p = chars_of(plugins[i].as_str());
                    assert(strs(plugins@)[i as int] == plugins@[i as int]@);
                    if !chars_eq(p.as_slice(), want.as_slice()) {
                        let c = plugins[i].clone();
                        let ghost before = strs(others@);
                        others.push(c);
                        assert(strs(others@) =~= before.push(c@));
                    }
                    i += 1;
                }
                let total = plugins.len();
                return Err(
                    UninstallError::NeedsConfirm {
                        name: owned(name),
                        repo_key,
                        other_plugins: others,
                        total,
                    },
                );
            }
            Ok(UninstallOutcome { repo_key, removed_plugins: plugins })
        },
    }
}

/// Whose plugin data an uninstall cleans up: none when data is kept, else
/// the scope of the repo's path.
pub fn uninstall_cleanup_scope(path: &str, home: &Option<String>, keep_data: bool) -> (r: Option<PluginScope>)
    ensures
        keep_data ==> r is None,
        !keep_data ==> r == Some(
            match home {
                Some(h) => if path_starts_with(path@, h@) {
                    PluginScope::User
                } else {
                    PluginScope::ConfigPath
                },
                None => PluginScope::ConfigPath,
            },
        ),
{
    if keep_data {
        None
    } else {
        Some(plugin_scope(path, home))
    }
}

} // verus!
