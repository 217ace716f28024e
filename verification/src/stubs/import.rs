//! Import of another coding tool's settings, in builds without foreign-session
//! support.

use vstd::prelude::*;
use crate::text::owned;

verus! {

#[derive(Clone, Copy, PartialEq, Eq, Structural, Debug)]
pub enum ImportScope {
    Global,
    Project,
}

#[derive(Clone, Copy, PartialEq, Eq, Structural, Debug)]
pub enum PathKind {
    Skill,
    Rule,
}

/// A setting that could be imported.
pub enum ImportableItem {
    /// A permission rule, as written in the settings.
    Permission { rule: String },
    EnvVar { key: String, value: String },
    /// An MCP server and its configuration as JSON.
    McpServer { name: String, config: String },
    Hook { event: String, matcher: Option<String>, command: String, timeout: Option<u64> },
    PathEntry { kind: PathKind, path: String },
}

/// Settings found to import, by scope.
pub struct ImportPlan {
    pub global_items: Vec<ImportableItem>,
    pub project_items: Vec<ImportableItem>,
}

impl ImportPlan {
    /// Number of items in both scopes.
    pub fn total_items(&self) -> (r: usize)
        requires
            self.global_items@.len() + self.project_items@.len() <= usize::MAX,
        ensures
            r == self.global_items@.len() + self.project_items@.len(),
    {
        self.global_items.len() + self.project_items.len()
    }

    /// Whether neither scope has items: exactly when the item count is 0.
    pub fn is_empty(&self) -> (r: bool)
        ensures
            r == (self.global_items@.len() == 0 && self.project_items@.len() == 0),
            r == (self.global_items@.len() + self.project_items@.len() == 0),
    {
        self.global_items.len() == 0 && self.project_items.len() == 0
    }
}

/// A plan is empty exactly when it counts no items.
pub proof fn lemma_plan_empty_iff_no_items(plan: ImportPlan)
    ensures
        (plan.global_items@.len() == 0 && plan.project_items@.len() == 0) <==> (
        plan.global_items@.len() + plan.project_items@.len() == 0),
{
}

/// Counts of an import.
pub struct ImportResult {
    pub global_count: usize,
    pub project_count: usize,
    pub modified_files: Vec<String>,
}

impl ImportResult {
    /// Items imported in both scopes.
    pub fn total(&self) -> (r: usize)
        requires
            self.global_count + self.project_count <= usize::MAX,
        ensures
            r == self.global_count + self.project_count,
    {
        self.global_count + self.project_count
    }
}

/// Nothing is scanned in this build.
pub fn scan_importable_settings(cwd: &str) -> (r: ImportPlan)
    ensures
        r.global_items@.len() == 0 && r.project_items@.len() == 0,
{
    ImportPlan { global_items: Vec::new(), project_items: Vec::new() }
}

/// Nothing is imported in this build.
pub fn apply_import(plan: &ImportPlan, cwd: &str) -> (r: Result<ImportResult, String>)
    ensures
        r is Ok && r->Ok_0.global_count == 0 && r->Ok_0.project_count == 0
            && r->Ok_0.modified_files@.len() == 0,
{
    Ok(ImportResult { global_count: 0, project_count: 0, modified_files: Vec::new() })
}

/// Nothing is marked in this build.
pub fn mark_claude_imported() -> (r: Result<(), String>)
    ensures
        r is Ok,
{
    Ok(())
}

/// The project root is the working directory itself.
pub fn find_project_root(cwd: &str) -> (r: String)
    ensures
        r@ == cwd@,
{
    owned(cwd)
}

} // verus!
