//! Verified core of a terminal AI agent: slash commands, approval policy,
//! settings, error classification and the editing and scrolling state of the UI.

pub mod text;
pub mod tool_args;
pub mod mode;
pub mod settings;
pub mod commands;
pub mod errors;
pub mod agent;
pub mod turn;
pub mod llm;
pub mod api_error;
pub mod ui;
pub mod tools;
pub mod search;
pub mod file_ops;
pub mod env_report;
pub mod laws;
