//! The verified core of the `cship.impact` statusline module.

pub mod cache;
pub mod config;
pub mod context;
pub mod context_laws;
pub mod git;
pub mod git_laws;
pub mod modules;
pub mod text;
pub mod text_laws;
