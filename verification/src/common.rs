//! Names shared with the Basilisk language server and the other editor
//! integrations: command identifiers, configuration keys, diagnostic codes.
pub mod commands;
pub mod config_keys;
pub mod memory_diagnostics;
pub mod notifications;
pub mod profiler_diagnostics;
pub mod profiler_formats;
pub mod profiler_presets;
pub mod release;
pub mod slash_commands;
