//! open-sessionbar: renders the session state served by the
//! opencode-sessionbar plugin for status bars and a live popup.

pub mod cli;
pub mod client;
pub mod format;
pub mod install;
pub mod json_text;
pub mod model;
pub mod spinner;
pub mod text;
pub mod tui;
pub mod watch;
