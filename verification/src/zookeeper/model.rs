//! Data model of a ZooKeeper node.

use vstd::prelude::*;

verus! {

/// The role of a node in its ensemble. A node answers with a word; a word
/// that names none of the three roles is kept as `Unknown`.
#[derive(Debug, PartialEq, Eq, Clone, Copy, Structural)]
pub enum Mode {
    Follower,
    Leader,
    Standalone,
    Unknown,
}

impl Mode {
    /// The name of the mode.
    pub open spec fn name(self) -> Seq<char> {
        match self {
            Mode::Follower => "Follower"@,
            Mode::Leader => "Leader"@,
            Mode::Standalone => "Standalone"@,
            Mode::Unknown => "Unknown"@,
        }
    }

    /// Renders the mode by name.
    pub fn to_string(&self) -> (s: String)
        ensures
            s@ == self.name(),
    {
        match self {
            Mode::Follower => "Follower".to_owned(),
            Mode::Leader => "Leader".to_owned(),
            Mode::Standalone => "Standalone".to_owned(),
            Mode::Unknown => "Unknown".to_owned(),
        }
    }
}

/// The four-letter words that the client sends.
#[derive(Debug, PartialEq, Eq, Clone, Copy, Structural)]
pub enum Word {
    Srvr,
    Conf,
    Wchc,
}

/// A node: its id in the ensemble and its role.
#[derive(Debug, PartialEq, Eq)]
pub struct ZNode {
    pub id: String,
    pub mode: Mode,
}

/// Where a node listens.
#[derive(Debug, PartialEq, Eq)]
pub struct ZAddr {
    pub host: String,
    pub port: String,
}

} // verus!
