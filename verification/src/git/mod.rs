pub mod blame;
pub mod branch;
pub mod cli;
pub mod commit_detail;
pub mod error;
pub mod history;
pub mod patch;
pub mod remote_link;
pub mod service;
pub mod stash;
pub mod status;
pub mod worktree;
