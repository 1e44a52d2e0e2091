//! Fibers of a monitored ZIO runtime: the data model and the dump grammar.

pub mod dump_parser;
pub mod model;
pub mod zmx_client;
