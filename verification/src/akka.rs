//! Actors of a monitored Akka system: data model and actor-tree assembly.

pub mod client;
pub mod model;
