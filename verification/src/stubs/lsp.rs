//! Language-server support in builds without it.

use vstd::prelude::*;

verus! {

/// Why an LSP operation failed.
pub enum LspError {
    SpawnFailed(String),
    /// Server name and timeout in milliseconds.
    Timeout(String, u64),
    InitFailed(String),
    RequestFailed(String),
    InvalidPath,
}

/// Language servers of a workspace; never started in this build.
pub struct LspManager {
    /// Names of the configured servers.
    pub servers: Vec<String>,
    pub workspace_root: String,
    pub tools_enabled: bool,
    pub process_scope: Option<String>,
}

impl LspManager {
    pub fn new(servers: Vec<String>, workspace_root: String, tools_enabled: bool) -> (r: Self)
        ensures
            r.servers == servers,
            r.workspace_root == workspace_root,
            r.tools_enabled == tools_enabled,
            r.process_scope is None,
    {
        LspManager { servers, workspace_root, tools_enabled, process_scope: None }
    }

    /// The manager with its process scope set.
    pub fn with_process_scope(self, scope: Option<String>) -> (r: Self)
        ensures
            r.servers == self.servers,
            r.workspace_root == self.workspace_root,
            r.tools_enabled == self.tools_enabled,
            r.process_scope == scope,
    {
        LspManager { process_scope: scope, ..self }
    }
}

/// LSP backend over a manager; every request reports the missing feature.
pub struct LspBackendAdapter {
    mgr: LspManager,
}

impl LspBackendAdapter {
    /// The manager the adapter dispatches to.
    pub closed spec fn manager(&self) -> LspManager {
        self.mgr
    }

    /// The adapter over `lsp_manager`.
    pub fn new(lsp_manager: LspManager) -> (r: Self)
        ensures
            r.manager() == lsp_manager,
    {
        LspBackendAdapter { mgr: lsp_manager }
    }
}

} // verus!
