//! Rewrites the author of every commit of a Git repository by driving an
//! interactive rebase.
//!
//! This crate holds the decisions of the tool: how a rebase todo list is
//! rewritten, which `git` commands are run and how their outcomes are read,
//! and the order in which a run proceeds. Running processes, touching files
//! and talking to the terminal are left to the program around it.

pub mod banner;
pub mod cli;
pub mod git;
pub mod prompt;
pub mod sequence_editor;
pub mod session;
pub mod text;
