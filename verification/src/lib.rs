//! Core of an interactive terminal project launcher: discovery of
//! version-controlled project directories, case-insensitive substring
//! filtering with live selection, and the two-mode key-dispatch state
//! machine that drives the interaction loop.

pub mod config;
pub mod discover;
pub mod paths;
pub mod project;
pub mod search;
pub mod state;
pub mod text;
