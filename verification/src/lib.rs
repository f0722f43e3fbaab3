//! A personal daily journal kept as dated text files in a git-managed
//! directory.
//!
//! The library holds everything the tool decides: how the storage
//! directory is derived from the home directory, which setup actions a
//! first run performs, how a day's entry file is named, and which
//! external commands each subcommand issues, in which order. The thin
//! binary around it only executes those decisions: it spawns the
//! processes, reads the prompt answer, and prints the messages.

pub mod command;
pub mod config;
pub mod date;
pub mod plan;
mod clock;
