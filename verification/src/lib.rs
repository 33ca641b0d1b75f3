//! Provider profile management for launching a coding assistant CLI against
//! Anthropic-compatible endpoints: credentials, workspaces, provider registry,
//! launch command construction and status-line text.

pub mod actions;
pub mod cli;
pub mod config;
pub mod error;
pub mod json;
pub mod providers;
pub mod settings;
pub mod slug;
pub mod statusline;
pub mod strmap;
pub mod text;
pub mod tui;
