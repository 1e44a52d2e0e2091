//! Status of a ZooKeeper node, read from its four-letter-word answers.

pub mod model;
pub mod zookeeper_client;
