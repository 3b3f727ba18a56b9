//! The statusline modules.

pub mod impact;
pub mod impact_laws;
