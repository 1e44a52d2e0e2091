//! Settings and nodes of the actor-tree endpoint.

use vstd::prelude::*;
use crate::widgets::tree::TreeWidgetNode;

verus! {

/// Addresses and timing of the actor-tree and actor-count endpoints.
#[derive(Debug, PartialEq, Eq, Clone)]
pub struct AkkaActorTreeSettings {
    pub tree_address: String,
    pub count_address: String,
    pub tree_timeout: u64,
    pub count_timeout: u64,
}

/// One actor of the tree: the last segment of its path, the id of its
/// parent and its own id.
#[derive(Debug, PartialEq, Eq, Hash)]
pub struct ActorNode {
    pub name: String,
    pub parent: Option<usize>,
    pub id: usize,
}

impl Clone for ActorNode {
    fn clone(&self) -> (res: Self)
        ensures
            res == *self,
    {
        ActorNode { name: self.name.clone(), parent: self.parent, id: self.id }
    }
}

/// An actor is drawn under its parent, labelled by its path segment.
impl TreeWidgetNode for ActorNode {
    open spec fn spec_id(&self) -> usize {
        self.id
    }

    open spec fn spec_parent_id(&self) -> Option<usize> {
        self.parent
    }

    open spec fn spec_label(&self) -> Seq<char> {
        self.name@
    }

    fn id(&self) -> (id: usize) {
        self.id
    }

    fn parent_id(&self) -> (parent: Option<usize>) {
        self.parent
    }

    fn label(&self) -> (label: String) {
        self.name.clone()
    }
}

} // verus!
