//! The state of the plain tabs and the tree formatter under its short
//! name.

pub mod app;
pub mod formatter;
