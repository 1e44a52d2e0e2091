//! A tree whose nodes live in one vector and name each other by index.

use vstd::prelude::*;
use vstd::std_specs::cmp::PartialEqSpec;

verus! {

/// A node of the arena: its place in the arena, its value, and the places
/// of its parent and children.
#[derive(Debug)]
pub struct Node<T> {
    pub idx: usize,
    pub val: T,
    pub parent: Option<usize>,
    pub children: Vec<usize>,
}

impl<T> Node<T> {
    /// A node at place `idx` with the value `val`, without parent or
    /// children.
    pub fn new(idx: usize, val: T) -> (node: Node<T>)
        ensures
            node.is_single(idx, val),
    {
        Node { idx, val, parent: None, children: Vec::new() }
    }

    /// The node is at place `idx`, holds `val`, and has neither parent
    /// nor children.
    pub open spec fn is_single(self, idx: usize, val: T) -> bool {
        &&& self.idx == idx
        &&& self.val == val
        &&& self.parent is None
        &&& self.children@.len() == 0
    }
}

/// The arena of the nodes of a tree.
#[derive(Debug)]
pub struct ArenaTree<T> {
    pub arena: Vec<Node<T>>,
}

/// Place in `arena` of the first node at or after `from` whose value
/// equals `val`, or `arena.len()` where there is none.
pub open spec fn first_holding<T: PartialEq>(arena: Seq<Node<T>>, val: T, from: int) -> int
    decreases arena.len() - from,
{
    if from < 0 || from >= arena.len() {
        arena.len() as int
    } else if arena[from].val.eq_spec(&val) {
        from
    } else {
        first_holding(arena, val, from + 1)
    }
}

impl<T: PartialEq> ArenaTree<T> {
    /// An arena without nodes.
    pub fn new() -> (tree: ArenaTree<T>)
        ensures
            tree.arena@.len() == 0,
    {
        ArenaTree { arena: Vec::new() }
    }

    /// The index that the first node with the value `val` carries; where
    /// no node has that value, a node that has it is added at the end of
    /// the arena and its place is returned.
    pub fn node(&mut self, val: T) -> (idx: usize)
        ensures
            T::obeys_eq_spec() ==> {
                let at = first_holding(old(self).arena@, val, 0);
                if at < old(self).arena@.len() {
                    &&& idx == old(self).arena@[at].idx
                    &&& final(self).arena == old(self).arena
                } else {
                    &&& idx == old(self).arena@.len()
                    &&& final(self).arena@.len() == old(self).arena@.len() + 1
                    &&& final(self).arena@.last().is_single(idx, val)
                    &&& final(self).arena@.drop_last() == old(self).arena@
                }
            },
    {
        let mut i: usize = 0;
        while i < self.arena.len()
            invariant
                i <= self.arena@.len(),
                self.arena == old(self).arena,
                T::obeys_eq_spec() ==> first_holding(self.arena@, val, 0) == first_holding(
                    self.arena@,
                    val,
                    i as int,
                ),
            decreases self.arena@.len() - i,
        {
            if self.arena[i].val == val {
                return self.arena[i].idx;
            }
            i = i + 1;
        }
        let idx = self.arena.len();
        self.arena.push(Node::new(idx, val));
        assert(self.arena@.drop_last() =~= old(self).arena@);
        idx
    }
}

} // verus!
