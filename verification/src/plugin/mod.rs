//! Shared plugin lifecycle rules (output-agnostic): install, uninstall and
//! update outcomes and errors with their user-facing messages, marketplace
//! source identities, removal of a source from the config file, and the
//! selection of the marketplace entry to install.

pub mod names;
pub mod errors;
pub mod toml_block;
pub mod plan;
pub mod cli;
pub mod update;
pub mod install;
pub mod json_sources;
