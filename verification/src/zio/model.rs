//! Data model of a fiber snapshot.

use vstd::prelude::*;
use crate::widgets::tree::TreeWidgetNode;

verus! {

/// Lifecycle state of a fiber, as printed on the second line of its dump.
#[derive(Debug, PartialEq, Eq, Hash, Clone, Copy, Structural)]
pub enum FiberStatus {
    Done,
    Finishing,
    Running,
    Suspended,
}

impl FiberStatus {
    /// The name of the status, as the runtime spells it.
    pub open spec fn name(self) -> Seq<char> {
        match self {
            FiberStatus::Done => seq!['D', 'o', 'n', 'e'],
            FiberStatus::Finishing => seq!['F', 'i', 'n', 'i', 's', 'h', 'i', 'n', 'g'],
            FiberStatus::Running => seq!['R', 'u', 'n', 'n', 'i', 'n', 'g'],
            FiberStatus::Suspended => seq!['S', 'u', 's', 'p', 'e', 'n', 'd', 'e', 'd'],
        }
    }

    /// Renders the status by name.
    pub fn to_string(&self) -> (s: String)
        ensures
            s@ == self.name(),
    {
        proof {
            reveal_strlit("Done");
            reveal_strlit("Finishing");
            reveal_strlit("Running");
            reveal_strlit("Suspended");
        }
        let s = match self {
            FiberStatus::Done => "Done",
            FiberStatus::Finishing => "Finishing",
            FiberStatus::Running => "Running",
            FiberStatus::Suspended => "Suspended",
        };
        assert(s@ =~= self.name());
        s.to_owned()
    }
}

/// One fiber of a dump: its id, the fiber that spawned it, its status and
/// the raw text it was parsed from.
#[derive(Debug, PartialEq, Eq, Hash)]
pub struct Fiber {
    pub id: usize,
    pub parent_id: Option<usize>,
    pub status: FiberStatus,
    pub dump: String,
}

impl Clone for Fiber {
    fn clone(&self) -> (res: Self)
        ensures
            res == *self,
    {
        Fiber {
            id: self.id,
            parent_id: self.parent_id,
            status: self.status,
            dump: self.dump.clone(),
        }
    }
}

/// A fiber is drawn under the fiber that spawned it, labelled by status.
impl TreeWidgetNode for Fiber {
    open spec fn spec_id(&self) -> usize {
        self.id
    }

    open spec fn spec_parent_id(&self) -> Option<usize> {
        self.parent_id
    }

    open spec fn spec_label(&self) -> Seq<char> {
        self.status.name()
    }

    fn id(&self) -> (id: usize) {
        self.id
    }

    fn parent_id(&self) -> (parent: Option<usize>) {
        self.parent_id
    }

    fn label(&self) -> (label: String) {
        self.status.to_string()
    }
}

/// Number of fibers in each status at one poll.
#[derive(Debug, PartialEq, Eq, Hash, Clone, Copy, Structural)]
pub struct FiberCount {
    pub done: i32,
    pub finishing: i32,
    pub running: i32,
    pub suspended: i32,
}

impl FiberCount {
    /// Sum of the four counters, as a mathematical integer.
    pub open spec fn spec_total(self) -> int {
        self.done + self.finishing + self.running + self.suspended
    }

    /// Total number of fibers counted.
    pub fn total(&self) -> (t: i32)
        requires
            i32::MIN <= self.spec_total() <= i32::MAX,
        ensures
            t == self.spec_total(),
    {
        let sum = self.done as i64 + self.finishing as i64 + self.running as i64
            + self.suspended as i64;
        sum as i32
    }
}

} // verus!
