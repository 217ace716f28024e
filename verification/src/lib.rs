//! Verified core of the Grok Build terminal agent: stream reconciliation,
//! usage and quota presentation, session handoff, plugin marketplace rules,
//! the privileged config-writer protocol, and the compiled-out facades.

pub mod text;
pub mod responses;
pub mod paths;
pub mod plugin;
pub mod handoff;
pub mod slash;
pub mod credit;
pub mod memory;
pub mod stubs;
pub mod wire;
pub mod quota_state;
pub mod handoff_flow;
pub mod chatgpt;
pub mod mcp_promote;
pub mod voice;
pub mod trace_context;
