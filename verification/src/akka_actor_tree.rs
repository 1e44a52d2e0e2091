//! The actor tree as a backend of its own.

pub mod model;
