//! A git-flow branching workflow on top of a git repository.

pub mod backend;
pub mod config;
pub mod error;
pub mod gf;
pub mod gitc;
pub mod kind;
pub mod merge;
pub mod names;
pub mod object;
pub mod plan;
pub mod transfer;
pub mod utils;
