//! Small data structures.

pub mod tree;
