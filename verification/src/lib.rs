//! A small command shell: three toy commands behind a dispatcher, a bounded
//! session log, and the two-mode input controller that drives them.

pub mod text;
pub mod shared;
pub mod log;
pub mod tui;
pub mod cli;
pub mod git;
pub mod update;
