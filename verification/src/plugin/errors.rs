//! Outcomes and errors of plugin install, uninstall, update and marketplace
//! install, with their telemetry categories and user-facing messages.

use vstd::prelude::*;
use crate::text::{dec, dec_chars, extend, extend_str, join, join_exec, string_of};
use crate::paths::views;

verus! {

/// Views of a list of strings.
pub open spec fn strs(v: Seq<String>) -> Seq<Seq<char>> {
    v.map_values(|s: String| s@)
}

/// Result of installing a plugin from a git URL or local path.
pub struct InstallOutcome {
    pub repo_key: String,
    pub plugin_names: Vec<String>,
    pub warnings: Vec<String>,
    /// Whether the source was a local path (vs git).
    pub is_local: bool,
}

/// Result of uninstalling a plugin.
pub struct UninstallOutcome {
    pub repo_key: String,
    pub removed_plugins: Vec<String>,
}

/// Why an uninstall did not happen.
pub enum UninstallError {
    NotFound { name: String },
    /// The plugin's repo holds other plugins and the removal was not
    /// confirmed.
    NeedsConfirm { name: String, repo_key: String, other_plugins: Vec<String>, total: usize },
}

/// `  - p\n` for each item.
pub open spec fn bullet_lines(items: Seq<Seq<char>>) -> Seq<char>
    decreases items.len(),
{
    if items.len() == 0 {
        Seq::empty()
    } else {
        bullet_lines(items.drop_last()) + "  - "@ + items.last() + "\n"@
    }
}

/// `  - p` for each item, joined by newlines.
pub open spec fn bullets(items: Seq<Seq<char>>) -> Seq<char> {
    join(items.map_values(|s: Seq<char>| "  - "@ + s), "\n"@)
}

/// The not-found message shared by uninstall and update.
pub open spec fn not_found_message(name: Seq<char>) -> Seq<char> {
    "Plugin \""@ + name + "\" not found.\nRun `grok plugin list` to see installed plugins."@
}

/// Message of an uninstall error.
pub open spec fn uninstall_message(e: &UninstallError) -> Seq<char> {
    match e {
        UninstallError::NotFound { name } => not_found_message(name@),
        UninstallError::NeedsConfirm { name, repo_key, other_plugins, total } => "Plugin \""@
            + name@ + "\" belongs to repo \""@ + repo_key@ + "\" which also contains:\n"@
            + bullet_lines(strs(other_plugins@)) + "\n"@ + "Uninstalling will remove all "@ + dec(
            *total as nat,
        ) + " plugin(s)."@,
    }
}

/// `  - p\n` for each item.
fn bullet_lines_of(items: &Vec<String>) -> (r: Vec<char>)
    ensures
        r@ == bullet_lines(strs(items@)),
{
    let ghost v = strs(items@);
    let mut r: Vec<char> = Vec::new();
    let mut i: usize = 0;
    while i < items.len()
        invariant
            i <= items@.len(),
            v == strs(items@),
            r@ == bullet_lines(v.subrange(0, i as int)),
        decreases items@.len() - i,
    {
        assert(v.subrange(0, i + 1).drop_last() =~= v.subrange(0, i as int));
        assert(v.subrange(0, i + 1).last() == items@[i as int]@);
        extend_str(&mut r, "  - ");
        extend_str(&mut r, items[i].as_str());
        extend_str(&mut r, "\n");
        i += 1;
    }
    assert(v.subrange(0, v.len() as int) =~= v);
    r
}

/// The items as a bullet list, one `  - item` per line.
pub fn bullet_list(items: &Vec<String>) -> (r: String)
    ensures
        r@ == bullets(strs(items@)),
{
    let ghost v = strs(items@);
    let mut parts: Vec<Vec<char>> = Vec::new();
    let mut i: usize = 0;
    while i < items.len()
        invariant
            i <= items@.len(),
            v == strs(items@),
            views(parts@) == v.subrange(0, i as int).map_values(|s: Seq<char>| "  - "@ + s),
        decreases items@.len() - i,
    {
        let mut p: Vec<char> = Vec::new();
        extend_str(&mut p, "  - ");
        extend_str(&mut p, items[i].as_str());
        let ghost before = views(parts@);
        parts.push(p);
        assert(views(parts@) =~= before.push(p@));
        i += 1;
        assert(views(parts@) =~= v.subrange(0, i as int).map_values(|s: Seq<char>| "  - "@ + s));
    }
    assert(v.subrange(0, v.len() as int) =~= v);
    let nl: Vec<char> = crate::text::chars_of("\n");
    let j = join_exec(&parts, nl.as_slice());
    string_of(j.as_slice())
}

/// The not-found message.
fn not_found_text(name: &String) -> (r: Vec<char>)
    ensures
        r@ == not_found_message(name@),
{
    let mut r: Vec<char> = Vec::new();
    extend_str(&mut r, "Plugin \"");
    extend_str(&mut r, name.as_str());
    extend_str(&mut r, "\" not found.\nRun `grok plugin list` to see installed plugins.");
    r
}

impl UninstallError {
    /// The user-facing message.
    pub fn message(&self) -> (r: String)
        ensures
            r@ == uninstall_message(self),
    {
        match self {
            UninstallError::NotFound { name } => string_of(not_found_text(name).as_slice()),
            UninstallError::NeedsConfirm { name, repo_key, other_plugins, total } => {
                let mut r: Vec<char> = Vec::new();
                extend_str(&mut r, "Plugin \"");
                extend_str(&mut r, name.as_str());
                extend_str(&mut r, "\" belongs to repo \"");
                extend_str(&mut r, repo_key.as_str());
                extend_str(&mut r, "\" which also contains:\n");
                let lines = bullet_lines_of(other_plugins);
                extend(&mut r, lines.as_slice());
                extend_str(&mut r, "\n");
                extend_str(&mut r, "Uninstalling will remove all ");
                let d = dec_chars(*total as u64);
                extend(&mut r, d.as_slice());
                extend_str(&mut r, " plugin(s).");
                string_of(r.as_slice())
            },
        }
    }
}

/// What updating one installed repo did.
pub enum RepoUpdateOutcome {
    Updated { repo_key: String, old_commit: Option<String>, new_commit: Option<String> },
    AlreadyUpToDate { repo_key: String },
    Pinned { repo_key: String, ref_name: String },
    LiveLocal { repo_key: String },
    Failed { repo_key: String, error: String },
}

/// View of a [`RepoUpdateOutcome`].
pub enum OutcomeV {
    Updated(Seq<char>, Option<Seq<char>>, Option<Seq<char>>),
    AlreadyUpToDate(Seq<char>),
    Pinned(Seq<char>, Seq<char>),
    LiveLocal(Seq<char>),
    Failed(Seq<char>, Seq<char>),
}

impl View for RepoUpdateOutcome {
    type V = OutcomeV;

    open spec fn view(&self) -> OutcomeV {
        match self {
            RepoUpdateOutcome::Updated { repo_key, old_commit, new_commit } => OutcomeV::Updated(
                repo_key@,
                crate::responses::model::opt_view(*old_commit),
                crate::responses::model::opt_view(*new_commit),
            ),
            RepoUpdateOutcome::AlreadyUpToDate { repo_key } => OutcomeV::AlreadyUpToDate(repo_key@),
            RepoUpdateOutcome::Pinned { repo_key, ref_name } => OutcomeV::Pinned(repo_key@, ref_name@),
            RepoUpdateOutcome::LiveLocal { repo_key } => OutcomeV::LiveLocal(repo_key@),
            RepoUpdateOutcome::Failed { repo_key, error } => OutcomeV::Failed(repo_key@, error@),
        }
    }
}

/// Why an update did not run.
pub enum UpdateError {
    NotFound { name: String },
}

impl UpdateError {
    /// The user-facing message.
    pub fn message(&self) -> (r: String)
        ensures
            r@ == (match self {
                UpdateError::NotFound { name } => not_found_message(name@),
            }),
    {
        match self {
            UpdateError::NotFound { name } => string_of(not_found_text(name).as_slice()),
        }
    }
}

/// Which installed plugins an update targets.
pub enum PluginUpdateSelector {
    PluginName(String),
    RepoKey(String),
}

/// Only a repo whose content changed needs the session to reload plugins.
pub fn repo_update_requires_reload(outcome: &RepoUpdateOutcome) -> (r: bool)
    ensures
        r == (outcome is Updated),
{
    match outcome {
        RepoUpdateOutcome::Updated { .. } => true,
        _ => false,
    }
}

/// The kinds of install failure.
#[derive(Clone, Copy, PartialEq, Eq, Structural, Debug)]
pub enum InstallErrorKind {
    AlreadyInstalled,
    Io,
    Json,
    PluginNotFound,
    ShaMismatch,
    UnpinnedRemoteRefused,
    InstallFailed,
}

/// An install failure: its kind and its rendered message.
pub struct InstallError {
    pub kind: InstallErrorKind,
    pub text: String,
}

/// Telemetry category of an install failure.
pub open spec fn install_category(kind: InstallErrorKind) -> Seq<char> {
    match kind {
        InstallErrorKind::AlreadyInstalled => "already_installed"@,
        InstallErrorKind::Io => "io"@,
        InstallErrorKind::Json => "json"@,
        InstallErrorKind::PluginNotFound => "not_found"@,
        InstallErrorKind::ShaMismatch => "sha_mismatch"@,
        InstallErrorKind::UnpinnedRemoteRefused => "unpinned_remote_refused"@,
        InstallErrorKind::InstallFailed => "install_failed"@,
    }
}

/// Classify an install error for telemetry.
pub fn classify_install_error(err: &InstallError) -> (r: String)
    ensures
        r@ == install_category(err.kind),
{
    let s = match err.kind {
        InstallErrorKind::AlreadyInstalled => "already_installed",
        InstallErrorKind::Io => "io",
        InstallErrorKind::Json => "json",
        InstallErrorKind::PluginNotFound => "not_found",
        InstallErrorKind::ShaMismatch => "sha_mismatch",
        InstallErrorKind::UnpinnedRemoteRefused => "unpinned_remote_refused",
        InstallErrorKind::InstallFailed => "install_failed",
    };
    crate::text::owned(s)
}

/// Result of installing a plugin from a marketplace.
pub struct MarketplaceInstallOutcome {
    pub repo_key: String,
    pub plugin_names: Vec<String>,
    pub warnings: Vec<String>,
    pub source_display_name: String,
    pub plugin_subdir: String,
    pub source_is_git: bool,
    pub already_installed: bool,
    pub other_copies_note: Option<String>,
}

/// Why a marketplace install did not happen.
pub enum MarketplaceInstallError {
    UnknownQualifier { qualifier: String, registered: Vec<String> },
    AmbiguousQualifier { qualifier: String, sources: Vec<String> },
    QualifiedNameNotFound { name: String, source_display: String },
    NameNotFound { name: String, skipped_sources: Vec<String> },
    NameAmbiguous { name: String, candidates: Vec<String> },
    PartialScan { name: String, skipped_sources: Vec<String> },
    Sync { source_display: String, detail: String },
    Install(InstallError),
    /// Marketplace support is unavailable in this build.
    Other(String),
}

/// Stable telemetry category of a marketplace install error.
pub open spec fn marketplace_category(e: &MarketplaceInstallError) -> Seq<char> {
    match e {
        MarketplaceInstallError::UnknownQualifier { .. } => "unknown_marketplace"@,
        MarketplaceInstallError::AmbiguousQualifier { .. } => "ambiguous_marketplace"@,
        MarketplaceInstallError::QualifiedNameNotFound { .. } => "not_found"@,
        MarketplaceInstallError::NameNotFound { .. } => "not_found"@,
        MarketplaceInstallError::NameAmbiguous { .. } => "ambiguous_plugin"@,
        MarketplaceInstallError::PartialScan { .. } => "partial_scan"@,
        MarketplaceInstallError::Sync { .. } => "sync_failed"@,
        MarketplaceInstallError::Install(e) => install_category(e.kind),
        MarketplaceInstallError::Other(_) => "unsupported"@,
    }
}

/// Message of a marketplace install error.
pub open spec fn marketplace_message(e: &MarketplaceInstallError) -> Seq<char> {
    match e {
        MarketplaceInstallError::UnknownQualifier { qualifier, registered } => if registered@.len()
            == 0 {
            "Unknown marketplace \""@ + qualifier@
                + "\". No marketplaces are registered; add one with `grok plugin marketplace add`."@
        } else {
            "Unknown marketplace \""@ + qualifier@
                + "\".\nRegistered marketplaces (pin with <name>@<qualifier>):\n"@ + bullets(
                strs(registered@),
            )
        },
        MarketplaceInstallError::AmbiguousQualifier { qualifier, sources } =>
            "Marketplace qualifier \""@ + qualifier@
            + "\" matches multiple registered sources that cannot be distinguished by qualifier:\n"@
            + bullets(strs(sources@))
            + "\nRename or remove one in your marketplace config so each source has a unique qualifier."@,
        MarketplaceInstallError::QualifiedNameNotFound { name, source_display } =>
            "No marketplace plugin named \""@ + name@ + "\" in \""@ + source_display@ + "\"."@,
        MarketplaceInstallError::NameNotFound { name, skipped_sources } =>
            "No marketplace plugin named \""@ + name@
            + "\" in any registered marketplace.\nInstall a local directory with `grok plugin install ./"@
            + name@ + "`, or add a source with `grok plugin marketplace add`."@ + if skipped_sources@.len()
            == 0 {
            Seq::empty()
        } else {
            "\n("@ + dec(skipped_sources@.len())
                + " marketplace source(s) could not be synced and were skipped: "@ + join(
                strs(skipped_sources@),
                ", "@,
            ) + ")"@
        },
        MarketplaceInstallError::NameAmbiguous { name, candidates } =>
            "Multiple marketplaces provide a plugin named \""@ + name@ + "\":\n"@ + bullets(
            strs(candidates@),
        ) + "\nPin one with `grok plugin install "@ + name@ + "@<qualifier>`."@,
        MarketplaceInstallError::PartialScan { name, skipped_sources } =>
            "Couldn't scan every marketplace while resolving \""@ + name@
            + "\", so it can't be resolved safely. Unscanned source(s):\n"@ + bullets(
            strs(skipped_sources@),
        ) + "\nRetry, or pin the source explicitly with `grok plugin install "@ + name@
            + "@<qualifier>`."@,
        MarketplaceInstallError::Sync { source_display, detail } =>
            "Failed to sync marketplace \""@ + source_display@ + "\": "@ + detail@,
        MarketplaceInstallError::Install(e) => e.text@,
        MarketplaceInstallError::Other(m) => m@,
    }
}

/// The items joined by `, `.
fn comma_join(items: &Vec<String>) -> (r: Vec<char>)
    ensures
        r@ == join(strs(items@), ", "@),
{
    let mut parts: Vec<Vec<char>> = Vec::new();
    let mut i: usize = 0;
    while i < items.len()
        invariant
            i <= items@.len(),
            views(parts@) == strs(items@).subrange(0, i as int),
        decreases items@.len() - i,
    {
        let p = crate::text::chars_of(items[i].as_str());
        let ghost before = views(parts@);
        parts.push(p);
        assert(views(parts@) =~= before.push(p@));
        i += 1;
        assert(views(parts@) =~= strs(items@).subrange(0, i as int));
    }
    assert(strs(items@).subrange(0, items@.len() as int) =~= strs(items@));
    let sep = crate::text::chars_of(", ");
    join_exec(&parts, sep.as_slice())
}

impl MarketplaceInstallError {
    /// Stable telemetry category, reusing [`classify_install_error`] for the
    /// underlying install failure.
    pub fn category(&self) -> (r: String)
        ensures
            r@ == marketplace_category(self),
    {
        match self {
            MarketplaceInstallError::UnknownQualifier { .. } => crate::text::owned(
                "unknown_marketplace",
            ),
            MarketplaceInstallError::AmbiguousQualifier { .. } => crate::text::owned(
                "ambiguous_marketplace",
            ),
            MarketplaceInstallError::QualifiedNameNotFound { .. } => crate::text::owned("not_found"),
            MarketplaceInstallError::NameNotFound { .. } => crate::text::owned("not_found"),
            MarketplaceInstallError::NameAmbiguous { .. } => crate::text::owned("ambiguous_plugin"),
            MarketplaceInstallError::PartialScan { .. } => crate::text::owned("partial_scan"),
            MarketplaceInstallError::Sync { .. } => crate::text::owned("sync_failed"),
            MarketplaceInstallError::Install(e) => classify_install_error(e),
            MarketplaceInstallError::Other(_) => crate::text::owned("unsupported"),
        }
    }

    /// The user-facing message.
    pub fn message(&self) -> (r: String)
        ensures
            r@ == marketplace_message(self),
    {
        let mut r: Vec<char> = Vec::new();
        match self {
            MarketplaceInstallError::UnknownQualifier { qualifier, registered } => {
                extend_str(&mut r, "Unknown marketplace \"");
                extend_str(&mut r, qualifier.as_str());
                if registered.len() == 0 {
                    extend_str(
                        &mut r,
                        "\". No marketplaces are registered; add one with `grok plugin marketplace add`.",
                    );
                } else {
                    extend_str(&mut r, "\".\nRegistered marketplaces (pin with <name>@<qualifier>):\n");
                    let list = bullet_list(registered);
                    extend_str(&mut r, list.as_str());
                }
            },
            MarketplaceInstallError::AmbiguousQualifier { qualifier, sources } => {
                extend_str(&mut r, "Marketplace qualifier \"");
                extend_str(&mut r, qualifier.as_str());
                extend_str(
                    &mut r,
                    "\" matches multiple registered sources that cannot be distinguished by qualifier:\n",
                );
                let list = bullet_list(sources);
                extend_str(&mut r, list.as_str());
                extend_str(
                    &mut r,
                    "\nRename or remove one in your marketplace config so each source has a unique qualifier.",
                );
            },
            MarketplaceInstallError::QualifiedNameNotFound { name, source_display } => {
                extend_str(&mut r, "No marketplace plugin named \"");
                extend_str(&mut r, name.as_str());
                extend_str(&mut r, "\" in \"");
                extend_str(&mut r, source_display.as_str());
                extend_str(&mut r, "\".");
            },
            MarketplaceInstallError::NameNotFound { name, skipped_sources } => {
                extend_str(&mut r, "No marketplace plugin named \"");
                extend_str(&mut r, name.as_str());
                extend_str(
                    &mut r,
                    "\" in any registered marketplace.\nInstall a local directory with `grok plugin install ./",
                );
                extend_str(&mut r, name.as_str());
                extend_str(&mut r, "`, or add a source with `grok plugin marketplace add`.");
                let ghost base = r@;
                if skipped_sources.len() > 0 {
                    extend_str(&mut r, "\n(");
                    let d = dec_chars(skipped_sources.len() as u64);
                    extend(&mut r, d.as_slice());
                    extend_str(&mut r, " marketplace source(s) could not be synced and were skipped: ");
                    let j = comma_join(skipped_sources);
                    extend(&mut r, j.as_slice());
                    extend_str(&mut r, ")");
                } else {
                    assert(r@ =~= base + Seq::<char>::empty());
                }
            },
            MarketplaceInstallError::NameAmbiguous { name, candidates } => {
                extend_str(&mut r, "Multiple marketplaces provide a plugin named \"");
                extend_str(&mut r, name.as_str());
                extend_str(&mut r, "\":\n");
                let list = bullet_list(candidates);
                extend_str(&mut r, list.as_str());
                extend_str(&mut r, "\nPin one with `grok plugin install ");
                extend_str(&mut r, name.as_str());
                extend_str(&mut r, "@<qualifier>`.");
            },
            MarketplaceInstallError::PartialScan { name, skipped_sources } => {
                extend_str(&mut r, "Couldn't scan every marketplace while resolving \"");
                extend_str(&mut r, name.as_str());
                extend_str(
                    &mut r,
                    "\", so it can't be resolved safely. Unscanned source(s):\n",
                );
                let list = bullet_list(skipped_sources);
                extend_str(&mut r, list.as_str());
                extend_str(
                    &mut r,
                    "\nRetry, or pin the source explicitly with `grok plugin install ",
                );
                extend_str(&mut r, name.as_str());
                extend_str(&mut r, "@<qualifier>`.");
            },
            MarketplaceInstallError::Sync { source_display, detail } => {
                extend_str(&mut r, "Failed to sync marketplace \"");
                extend_str(&mut r, source_display.as_str());
                extend_str(&mut r, "\": ");
                extend_str(&mut r, detail.as_str());
            },
            MarketplaceInstallError::Install(e) => {
                extend_str(&mut r, e.text.as_str());
            },
            MarketplaceInstallError::Other(m) => {
                extend_str(&mut r, m.as_str());
            },
        }
        string_of(r.as_slice())
    }
}

} // verus!
