//! Git client core: application state and its reducer, caches, Git output
//! parsing and the formatting helpers behind the views.
pub mod app;
pub mod cache;
pub mod dup;
pub mod git;
pub mod perf;
pub mod path;
pub mod platform;
pub mod task;
pub mod text;
