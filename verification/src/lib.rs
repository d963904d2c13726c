//! Commit messages from staged changes: the rules that decide what is asked of
//! a language-model provider, how its reply becomes a message, which model a
//! typed name stands for, what the stored preferences hold, and how one
//! accept / retry / quit round proceeds.

pub mod catalog;
pub mod checks;
pub mod config;
pub mod diff;
pub mod error;
pub mod json;
pub mod provider;
pub mod session;
pub mod text;
