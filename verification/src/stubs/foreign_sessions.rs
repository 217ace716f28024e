//! Sessions of other coding tools in builds without foreign-session support.

use vstd::prelude::*;

verus! {

#[derive(Clone, Copy, PartialEq, Eq, Structural, Debug)]
pub enum ForeignSessionTool {
    Claude,
    Codex,
    Cursor,
}

#[derive(Clone, Copy, PartialEq, Eq, Structural, Debug)]
pub enum ForeignSessionSource {
    ClaudeCode,
    CodexCli,
    CodexVsCode,
    CodexAtlas,
    CodexChatGpt,
    CursorDesktop,
    CursorCli,
}

/// A session of another tool.
pub struct ForeignSessionSummary {
    pub tool: ForeignSessionTool,
    pub source: ForeignSessionSource,
    pub native_id: String,
    pub title: String,
    pub cwd: String,
    /// Last update, in milliseconds since the Unix epoch.
    pub updated_at_ms: u64,
    pub branch: Option<String>,
}

/// The most recent session of another tool, and its age.
pub struct RecentForeignSession {
    pub tool: ForeignSessionTool,
    pub native_id: String,
    pub age_ms: u64,
}

/// Which tools' sessions are scanned.
#[derive(Clone, Copy, PartialEq, Eq, Structural, Debug)]
pub struct EnabledForeignSessionSources {
    pub claude: bool,
    pub codex: bool,
    pub cursor: bool,
}

/// No sessions in this build.
pub fn scan_foreign_sessions(cwd: &str, enabled: EnabledForeignSessionSources) -> (r: Vec<
    ForeignSessionSummary,
>)
    ensures
        r@.len() == 0,
{
    Vec::new()
}

/// No recent session in this build.
pub fn most_recent_foreign_session(
    cwd: &str,
    enabled: EnabledForeignSessionSources,
    within_ms: u64,
) -> (r: Option<RecentForeignSession>)
    ensures
        r is None,
{
    None
}

} // verus!
