//! Updating installed plugins: which installed repos an update targets,
//! and what each repo's update result is reported as.

use vstd::prelude::*;
use super::errors::{strs, OutcomeV, PluginUpdateSelector, RepoUpdateOutcome, UpdateError};
use crate::responses::model::{clone_opt, opt_view};
use super::cli::{MarketplaceSource, SourceKind};
use crate::responses::merge::str_eq;
use crate::responses::slots::{first_match, lemma_first_match_is};
use crate::text::{chars_of, contains, contains_exec, extend_str, owned, string_of};

verus! {

/// View of a selector.
pub open spec fn selector_view(s: Option<PluginUpdateSelector>) -> Option<(bool, Seq<char>)> {
    match s {
        Some(PluginUpdateSelector::PluginName(n)) => Some((true, n@)),
        Some(PluginUpdateSelector::RepoKey(k)) => Some((false, k@)),
        None => None,
    }
}

/// The repos an update targets: every installed repo without a selector;
/// for a plugin name, the repo the registry finds it in; for a repo key,
/// that repo when the registry has it. `found` is the registry's answer for
/// the selector (the key of the repo holding the plugin, or the key itself
/// when the registry has that repo); `all_keys` the registry's keys in
/// listing order. A selector the registry does not know is not found.
pub open spec fn targets_spec(
    selector: Option<(bool, Seq<char>)>,
    found: Option<Seq<char>>,
    all_keys: Seq<Seq<char>>,
) -> Result<Seq<Seq<char>>, Seq<char>> {
    match selector {
        None => Ok(all_keys),
        Some((by_plugin, wanted)) => match found {
            Some(key) => Ok(seq![if by_plugin { key } else { wanted }]),
            None => Err(wanted),
        },
    }
}

/// Selects the repos an update runs on, or the not-found error.
pub fn update_plugins_by_selector(
    selector: Option<PluginUpdateSelector>,
    found: Option<String>,
    all_keys: &Vec<String>,
) -> (r: Result<Vec<String>, UpdateError>)
    ensures
        match (r, targets_spec(selector_view(selector), opt_view(found), strs(all_keys@))) {
            (Ok(keys), Ok(want)) => strs(keys@) == want,
            (Err(UpdateError::NotFound { name }), Err(want)) => name@ == want,
            _ => false,
        },
{
    match selector {
        None => {
            let keys = copy_all(all_keys);
            Ok(keys)
        },
        Some(PluginUpdateSelector::PluginName(plugin_name)) => match found {
            Some(key) => {
                let mut v: Vec<String> = Vec::new();
                v.push(key);
                assert(strs(v@) =~= seq![opt_view(found)->0]);
                Ok(v)
            },
            None => Err(UpdateError::NotFound { name: plugin_name }),
        },
        Some(PluginUpdateSelector::RepoKey(repo_key)) => match found {
            Some(_) => {
                let mut v: Vec<String> = Vec::new();
                let ghost k = repo_key@;
                v.push(repo_key);
                assert(strs(v@) =~= seq![k]);
                Ok(v)
            },
            None => Err(UpdateError::NotFound { name: repo_key }),
        },
    }
}

/// Update of one plugin by name, or of every installed plugin.
pub fn update_plugins(name: Option<&str>, found: Option<String>, all_keys: &Vec<String>) -> (r: Result<
    Vec<String>,
    UpdateError,
>)
    ensures
        match (
            r,
            targets_spec(
                match name {
                    Some(n) => Some((true, n@)),
                    None => None,
                },
                opt_view(found),
                strs(all_keys@),
            ),
        ) {
            (Ok(keys), Ok(want)) => strs(keys@) == want,
            (Err(UpdateError::NotFound { name: n }), Err(want)) => n@ == want,
            _ => false,
        },
{
    let selector = match name {
        Some(n) => Some(PluginUpdateSelector::PluginName(owned(n))),
        None => None,
    };
    update_plugins_by_selector(selector, found, all_keys)
}

/// A copy of a list of strings.
fn copy_all(v: &Vec<String>) -> (r: Vec<String>)
    ensures
        strs(r@) == strs(v@),
{
    let mut r: Vec<String> = Vec::new();
    let mut i: usize = 0;
    while i < v.len()
        invariant
            i <= v@.len(),
            strs(r@) == strs(v@).subrange(0, i as int),
        decreases v@.len() - i,
    {
        let s = v[i].clone();
        let ghost before = strs(r@);
        r.push(s);
        assert(strs(r@) =~= before.push(s@));
        i += 1;
        assert(strs(r@) =~= strs(v@).subrange(0, i as int));
    }
    assert(strs(v@).subrange(0, v@.len() as int) =~= strs(v@));
    r
}

/// What the marketplace installer reports for one repo's update.
pub struct MarketplaceUpdateResult {
    pub repo_key: String,
    pub changed: bool,
    pub reinstalled: bool,
    pub old_version: Option<String>,
    pub new_version: Option<String>,
}

/// The outcome of updating a marketplace-installed repo: updated when the
/// content changed or was reinstalled, else up to date (both under the key
/// the installer reports); a failure keeps the registry key and the error.
pub fn marketplace_update_outcome(repo_key: &str, result: Result<MarketplaceUpdateResult, String>) -> (r:
    RepoUpdateOutcome)
    ensures
        r@ == match result {
            Ok(u) => if u.changed || u.reinstalled {
                OutcomeV::Updated(u.repo_key@, opt_view(u.old_version), opt_view(u.new_version))
            } else {
                OutcomeV::AlreadyUpToDate(u.repo_key@)
            },
            Err(e) => OutcomeV::Failed(repo_key@, e@),
        },
{
    match result {
        Ok(u) => if u.changed || u.reinstalled {
            RepoUpdateOutcome::Updated {
                repo_key: u.repo_key,
                old_commit: u.old_version,
                new_commit: u.new_version,
            }
        } else {
            RepoUpdateOutcome::AlreadyUpToDate { repo_key: u.repo_key }
        },
        Err(e) => RepoUpdateOutcome::Failed { repo_key: owned(repo_key), error: e },
    }
}

/// What updating a git or local install reports.
pub enum GitUpdateStatus {
    /// The checkout was fetched; `changed` when the commit moved.
    Updated { changed: bool, old_commit: Option<String>, new_commit: Option<String> },
    /// Pinned to a ref: never moved.
    Pinned { ref_name: String },
    /// A live local directory: nothing to update.
    LiveLocal,
}

/// The outcome of updating a git or local install, and whether the new
/// commit must be written to the registry (only when it moved).
pub fn git_update_outcome(repo_key: &str, result: Result<GitUpdateStatus, String>) -> (r: (
    RepoUpdateOutcome,
    bool,
))
    ensures
        r.0@ == match result {
            Ok(GitUpdateStatus::Updated { changed, old_commit, new_commit }) => if changed {
                OutcomeV::Updated(repo_key@, opt_view(old_commit), opt_view(new_commit))
            } else {
                OutcomeV::AlreadyUpToDate(repo_key@)
            },
            Ok(GitUpdateStatus::Pinned { ref_name }) => OutcomeV::Pinned(repo_key@, ref_name@),
            Ok(GitUpdateStatus::LiveLocal) => OutcomeV::LiveLocal(repo_key@),
            Err(e) => OutcomeV::Failed(repo_key@, e@),
        },
        r.1 == (result matches Ok(GitUpdateStatus::Updated { changed, .. }) && changed),
{
    match result {
        Ok(GitUpdateStatus::Updated { changed, old_commit, new_commit }) => if changed {
            (RepoUpdateOutcome::Updated { repo_key: owned(repo_key), old_commit, new_commit }, true)
        } else {
            (RepoUpdateOutcome::AlreadyUpToDate { repo_key: owned(repo_key) }, false)
        },
        Ok(GitUpdateStatus::Pinned { ref_name }) => (
            RepoUpdateOutcome::Pinned { repo_key: owned(repo_key), ref_name },
            false,
        ),
        Ok(GitUpdateStatus::LiveLocal) => (RepoUpdateOutcome::LiveLocal { repo_key: owned(repo_key) }, false),
        Err(e) => (RepoUpdateOutcome::Failed { repo_key: owned(repo_key), error: e }, false),
    }
}

/// What updating one selected repo reported: from the marketplace
/// installer for a marketplace-installed repo, else from the git updater.
pub enum RepoUpdateResult {
    Marketplace(Result<MarketplaceUpdateResult, String>),
    Git(Result<GitUpdateStatus, String>),
}

/// The outcome of one repo's update, as [`marketplace_update_outcome`] and
/// [`git_update_outcome`] give it.
pub open spec fn repo_outcome_spec(repo_key: Seq<char>, result: RepoUpdateResult) -> OutcomeV {
    match result {
        RepoUpdateResult::Marketplace(Ok(u)) => if u.changed || u.reinstalled {
            OutcomeV::Updated(u.repo_key@, opt_view(u.old_version), opt_view(u.new_version))
        } else {
            OutcomeV::AlreadyUpToDate(u.repo_key@)
        },
        RepoUpdateResult::Marketplace(Err(e)) => OutcomeV::Failed(repo_key, e@),
        RepoUpdateResult::Git(Ok(GitUpdateStatus::Updated { changed, old_commit, new_commit })) => if changed {
            OutcomeV::Updated(repo_key, opt_view(old_commit), opt_view(new_commit))
        } else {
            OutcomeV::AlreadyUpToDate(repo_key)
        },
        RepoUpdateResult::Git(Ok(GitUpdateStatus::Pinned { ref_name })) => OutcomeV::Pinned(repo_key, ref_name@),
        RepoUpdateResult::Git(Ok(GitUpdateStatus::LiveLocal)) => OutcomeV::LiveLocal(repo_key),
        RepoUpdateResult::Git(Err(e)) => OutcomeV::Failed(repo_key, e@),
    }
}

/// Whether a repo's new commit goes into the registry: a git update whose
/// commit moved.
pub open spec fn records_commit(result: RepoUpdateResult) -> bool {
    result matches RepoUpdateResult::Git(Ok(GitUpdateStatus::Updated { changed, .. })) && changed
}

/// An update run over the selected repos.
pub struct UpdateRun {
    /// One outcome per selected repo, in selection order.
    pub outcomes: Vec<RepoUpdateOutcome>,
    /// Positions of the repos whose new commit is written to the registry.
    pub registry_commits: Vec<usize>,
    /// The registry is saved: once, after every repo.
    pub save_registry: bool,
}

/// Views of outcomes.
pub open spec fn outcome_views(v: Seq<RepoUpdateOutcome>) -> Seq<OutcomeV> {
    v.map_values(|o: RepoUpdateOutcome| o@)
}

/// Positions among the first `n` results whose commit is recorded.
pub open spec fn commits_upto(results: Seq<RepoUpdateResult>, n: int) -> Seq<usize>
    decreases n,
{
    if n <= 0 {
        Seq::empty()
    } else if records_commit(results[n - 1]) {
        commits_upto(results, n - 1).push((n - 1) as usize)
    } else {
        commits_upto(results, n - 1)
    }
}

/// The update run over the selected repos `repo_keys`, given what updating
/// each reported (`results`, in the same order): one outcome per repo,
/// the registry entries whose commit moved, and a single save at the end.
pub fn collect_update_outcomes(repo_keys: &Vec<String>, results: Vec<RepoUpdateResult>) -> (r: UpdateRun)
    requires
        repo_keys@.len() == results@.len(),
    ensures
        r.outcomes@.len() == repo_keys@.len(),
        forall|i: int|
            0 <= i < repo_keys@.len() ==> (#[trigger] r.outcomes@[i])@ == repo_outcome_spec(
                repo_keys@[i]@,
                results@[i],
            ),
        r.registry_commits@ == commits_upto(results@, results@.len() as int),
        r.save_registry,
{
    let ghost all = results@;
    let mut results = results;
    let mut outcomes: Vec<RepoUpdateOutcome> = Vec::new();
    let mut commits: Vec<usize> = Vec::new();
    let mut i: usize = 0;
    while i < repo_keys.len()
        invariant
            i <= repo_keys@.len(),
            repo_keys@.len() == all.len(),
            results@ == all.subrange(i as int, all.len() as int),
            outcomes@.len() == i,
            forall|j: int|
                0 <= j < i ==> (#[trigger] outcomes@[j])@ == repo_outcome_spec(repo_keys@[j]@, all[j]),
            commits@ == commits_upto(all, i as int),
        decreases repo_keys@.len() - i,
    {
        let result = results.remove(0);
        assert(result == all[i as int]);
        let key = repo_keys[i].as_str();
        let outcome = match result {
            RepoUpdateResult::Marketplace(m) => marketplace_update_outcome(key, m),
            RepoUpdateResult::Git(g) => {
                let (o, moved) = git_update_outcome(key, g);
                if moved {
                    commits.push(i);
                }
                o
            },
        };
        outcomes.push(outcome);
        proof {
            assert(results@ =~= all.subrange(i + 1, all.len() as int));
        }
        i = i + 1;
    }
    UpdateRun { outcomes, registry_commits: commits, save_registry: true }
}

/// Where an update reads a marketplace-installed repo's source from.
pub enum ProvenanceRoot {
    /// A configured git source: synced with its branch.
    ConfiguredGit { url: String, branch: Option<String> },
    /// A git URL no longer configured: synced from the default branch.
    AdHocGit(String),
    /// A local directory.
    Local(String),
}

/// Position of the first configured git source whose URL is `source`.
pub open spec fn configured_git_index(configured: Seq<MarketplaceSource>, source: Seq<char>) -> int {
    first_match(configured, is_git_at(source))
}

/// A git source with URL `url`.
pub open spec fn is_git_at(url: Seq<char>) -> spec_fn(MarketplaceSource) -> bool {
    |s: MarketplaceSource| match s.kind {
        SourceKind::Git { url: u, .. } => u@ == url,
        SourceKind::Local { .. } => false,
    }
}

/// The source root of an installed repo's provenance: a configured git
/// source with that URL (first match), else a git URL when the text looks
/// like one (`://` or `git@`), else a local path.
pub fn marketplace_root_for_provenance(source: &str, configured: &Vec<MarketplaceSource>) -> (r: ProvenanceRoot)
    ensures
        ({
            let j = configured_git_index(configured@, source@);
            if j < configured@.len() {
                match configured@[j].kind {
                    SourceKind::Git { url, branch } => r matches ProvenanceRoot::ConfiguredGit {
                        url: u,
                        branch: b,
                    } && u@ == url@ && opt_view(b) == opt_view(branch),
                    SourceKind::Local { .. } => false,
                }
            } else if contains(source@, "://"@) || contains(source@, "git@"@) {
                r matches ProvenanceRoot::AdHocGit(u) && u@ == source@
            } else {
                r matches ProvenanceRoot::Local(p) && p@ == source@
            }
        }),
{
    let want = owned(source);
    let mut j: usize = 0;
    while j < configured.len()
        invariant
            j <= configured@.len(),
            want@ == source@,
            forall|k: int| 0 <= k < j ==> !is_git_at(source@)(configured@[k]),
        decreases configured@.len() - j,
    {
        match &configured[j].kind {
            SourceKind::Git { url, branch } => {
                if str_eq(url, &want) {
                    proof {
                        lemma_first_match_is(configured@, is_git_at(source@), j as int);
                    }
                    return ProvenanceRoot::ConfiguredGit { url: url.clone(), branch: clone_opt(branch) };
                }
            },
            SourceKind::Local { .. } => {},
        }
        j += 1;
    }
    proof {
        lemma_first_match_is(configured@, is_git_at(source@), j as int);
    }
    let s = chars_of(source);
    let a = chars_of("://");
    let b = chars_of("git@");
    if contains_exec(s.as_slice(), a.as_slice()) || contains_exec(s.as_slice(), b.as_slice()) {
        ProvenanceRoot::AdHocGit(want)
    } else {
        ProvenanceRoot::Local(want)
    }
}

/// The error of a failed source sync.
pub fn git_sync_error(error: &str) -> (r: String)
    ensures
        r@ == "Git sync failed: "@ + error@,
{
    let mut m = chars_of("Git sync failed: ");
    extend_str(&mut m, error);
    string_of(m.as_slice())
}

/// The error when a local marketplace source's directory is missing.
pub fn local_root_error(path: &str) -> (r: String)
    ensures
        r@ == "local source directory not found: "@ + path@,
{
    let mut m = chars_of("local source directory not found: ");
    extend_str(&mut m, path);
    string_of(m.as_slice())
}

/// Position of the scanned entry whose relative path is the installed
/// repo's, if the source still has it.
pub fn find_scanned_entry(relative_paths: &Vec<String>, wanted: &str) -> (r: Option<usize>)
    ensures
        match r {
            Some(i) => i < relative_paths@.len() && relative_paths@[i as int]@ == wanted@ && forall|k: int|
                0 <= k < i ==> relative_paths@[k]@ != wanted@,
            None => forall|k: int| 0 <= k < relative_paths@.len() ==> relative_paths@[k]@ != wanted@,
        },
{
    let want = owned(wanted);
    let mut i: usize = 0;
    while i < relative_paths.len()
        invariant
            i <= relative_paths@.len(),
            want@ == wanted@,
            forall|k: int| 0 <= k < i ==> relative_paths@[k]@ != wanted@,
        decreases relative_paths@.len() - i,
    {
        if str_eq(&relative_paths[i], &want) {
            return Some(i);
        }
        i += 1;
    }
    None
}

} // verus!
