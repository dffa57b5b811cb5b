//! The library's core data structures.

pub mod context;
pub mod env;
pub mod response;
