//! Presentation helpers that do not depend on a terminal.

pub mod forest;
pub mod tree;
