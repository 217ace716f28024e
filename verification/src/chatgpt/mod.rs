//! ChatGPT Plus/Pro through the Codex Responses backend: the credential
//! store's rules, the OAuth flows' decisions, token claims, request
//! headers, the Codex compatibility policy, and the subscription quota.

pub mod extras;
pub mod store;
pub mod oauth;
pub mod headers;
pub mod quota;
pub mod catalog;
