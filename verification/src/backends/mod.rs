//! Backends of the runtime.

pub mod ureq;
