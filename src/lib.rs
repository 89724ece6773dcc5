//! Verified core of a tool that renders the differences between two
//! revisions of a LaTeX document kept in a git repository.

pub mod args;
pub mod config;
pub mod error;
pub mod health;
pub mod item;
pub mod latex;
pub mod locate;
pub mod logger;
pub mod paths;
pub mod pipeline;
pub mod revision;
pub mod workspace;
