//! What rendering works with.
pub mod memory;
