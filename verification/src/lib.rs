//! Verified logic of the Basilisk extension for the Zed editor: the slash
//! commands, the debug adapter configuration, the workspace configuration,
//! version comparison and the resolution of the language server binary.
pub mod binary;
pub mod common;
pub mod dap;
pub mod json;
pub mod slash;
pub mod text;
pub mod version;
pub mod workspace;

pub use binary::{find_env_var, resolve_binary_override};
pub use dap::{build_attach_scenario, build_dap_config, build_launch_scenario, is_attach_request};
pub use json::Json;
pub use slash::{slash_command_output, slash_completions};
pub use version::is_newer_version;
pub use workspace::{default_workspace_config, wrap_config};
