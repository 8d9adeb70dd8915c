//! The core of a terminal dashboard for a version-control tool.
//!
//! - `text`: strings as sequences of characters.
//! - `git`: the status of the repository and the tokenizer of argument
//!   lines.
//! - `command_line`: the argument lines and vectors of the file actions.
//! - `runner`: one run of a command with its follow-up step.
//! - `interaction`: the state machine of the dashboard, as a model.
//! - `view_model`: the dashboard itself, proved against that model.
//! - `view`: what the panels show of the state.
//! - `config`, `theme`: configuration and colours.
//!
//! Nothing here touches the terminal or starts a process: the caller does
//! both, and hands the outcomes in.

pub mod command_line;
pub mod config;
pub mod git;
pub mod interaction;
pub mod runner;
pub mod text;
pub mod theme;
pub mod view;
pub mod view_model;
