//! Two-way streams of bytes.

pub mod mock;
