//! Gauges of a database connection pool, read from management beans.

pub mod client;
pub mod model;
