//! The firmware's system table and the protocols that the loader uses.

pub mod protocol;
pub mod types;
