//! State, parsing and formatting logic of a terminal dashboard that polls
//! the monitoring backends of an actor/fiber runtime.
//!
//! The crate holds everything the dashboard decides or computes:
//!
//! - [`zio`]: the grammar of a fiber dump and the framing of the exchange
//!   that fetches dumps;
//! - [`widgets`]: the tree formatter shared by fibers and actors, with
//!   what holds of the rows of a forest;
//! - [`history`]: the bounded histories of metric samples;
//! - [`app`]: the tabs, their cursors, and the transitions that input,
//!   ticks and responses cause;
//! - [`fetcher`]: the fetch engine as a state machine from requests and
//!   backend replies to responses;
//! - [`akka`], [`jmx`], [`zookeeper`]: the data models of the backends and
//!   what is read from their answers.
//!
//! Sockets, HTTP, management beans and the terminal are left to the binary
//! built around it, which performs the calls that the engine names and
//! draws the state that the dashboard holds.

pub mod akka;
pub mod akka_actor_tree;
pub mod app;
pub mod fetcher;
pub mod history;
pub mod jmx;
pub mod text;
pub mod ui;
pub mod utils;
pub mod widgets;
pub mod zio;
pub mod zookeeper;
