//! Names for what joins HTTP to a runtime.

pub mod rt;
pub mod service;
