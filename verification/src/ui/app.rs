//! A list with a cursor that stops at its ends, and the tab that shows
//! the actor tree alone.

use vstd::prelude::*;
use std::collections::VecDeque;
use crate::akka_actor_tree::model::ActorNode;
use crate::history::{record, recorded};
use crate::widgets::tree::{column_width, node_views, row_text, tree_list_widget, tree_rows};

verus! {

/// The kinds of tab of a dashboard without dead letters.
#[derive(Debug, PartialEq, Eq, Hash, Clone, Copy, Structural)]
pub enum TabKind {
    ZMX,
    Slick,
    AkkaActorTree,
}

/// A list with a cursor that stops at the first and at the last item.
#[derive(Debug, PartialEq, Eq, Clone)]
pub struct ListState<I> {
    pub items: Vec<I>,
    pub selected: usize,
}

impl<I> ListState<I> {
    /// The list of `items` with the cursor on the first.
    pub fn new(items: Vec<I>) -> (list: ListState<I>)
        ensures
            list.items == items,
            list.selected == 0,
    {
        ListState { items, selected: 0 }
    }

    /// Moves the cursor up by one item, unless it is on the first.
    pub fn select_previous(&mut self)
        ensures
            final(self).items == old(self).items,
            final(self).selected == if old(self).selected > 0 {
                old(self).selected - 1
            } else {
                0
            },
    {
        if self.selected > 0 {
            self.selected -= 1;
        }
    }

    /// Moves the cursor down by one item, unless it is on the last.
    pub fn select_next(&mut self)
        ensures
            final(self).items == old(self).items,
            final(self).selected == if old(self).selected + 1 < old(self).items@.len() {
                old(self).selected + 1
            } else {
                old(self).selected as int
            },
    {
        if self.items.len() > 0 && self.selected < self.items.len() - 1 {
            self.selected += 1
        }
    }
}

/// The tab of the actor tree: the actors as a tree and the history of
/// their number.
#[derive(Debug, PartialEq, Eq, Clone)]
pub struct AkkaActorTreeTab {
    pub actors: ListState<String>,
    pub actor_counts: VecDeque<u64>,
}

impl AkkaActorTreeTab {
    pub const MAX_ACTOR_COUNT_MEASURES: usize = 25;

    pub fn new() -> (tab: AkkaActorTreeTab)
        ensures
            tab.actors.items@.len() == 0,
            tab.actors.selected == 0,
            tab.actor_counts@ == Seq::<u64>::empty(),
    {
        AkkaActorTreeTab { actors: ListState::new(Vec::new()), actor_counts: VecDeque::new() }
    }

    /// Replaces the actor list by the lines of the tree of `actors`,
    /// without ids, and puts the cursor on the first line.
    pub fn update_actor_tree(&mut self, actors: Vec<ActorNode>)
        ensures
            final(self).actor_counts == old(self).actor_counts,
            final(self).actors.selected == 0,
            final(self).actors.items@.len() == tree_rows(node_views(actors@), false).len(),
            forall|k: int|
                0 <= k < final(self).actors.items@.len() ==> {
                    let rows = tree_rows(node_views(actors@), false);
                    (#[trigger] final(self).actors.items@[k])@ == row_text(
                        node_views(actors@),
                        rows[k],
                        column_width(rows),
                    )
                },
    {
        let ghost nodes = node_views(actors@);
        let ghost rows = tree_rows(nodes, false);
        let list = tree_list_widget(actors, false);
        let mut lines: Vec<String> = Vec::new();
        let mut k: usize = 0;
        while k < list.len()
            invariant
                k <= list@.len(),
                lines@.len() == k,
                list@.len() == rows.len(),
                forall|j: int|
                    0 <= j < list@.len() ==> (#[trigger] list@[j]).0@ == row_text(
                        nodes,
                        rows[j],
                        column_width(rows),
                    ),
                forall|j: int| 0 <= j < k ==> (#[trigger] lines@[j])@ == list@[j].0@,
            decreases list@.len() - k,
        {
            lines.push(list[k].0.clone());
            k = k + 1;
        }
        self.actors.items = lines;
        self.actors.selected = 0;
    }

    /// Moves the cursor to the previous actor.
    pub fn select_prev_actor(&mut self)
        ensures
            final(self).actor_counts == old(self).actor_counts,
            final(self).actors.items == old(self).actors.items,
            final(self).actors.selected == if old(self).actors.selected > 0 {
                old(self).actors.selected - 1
            } else {
                0
            },
    {
        self.actors.select_previous();
    }

    /// Moves the cursor to the next actor.
    pub fn select_next_actor(&mut self)
        ensures
            final(self).actor_counts == old(self).actor_counts,
            final(self).actors.items == old(self).actors.items,
            final(self).actors.selected == if old(self).actors.selected + 1 < old(self).actors.items@.len() {
                old(self).actors.selected + 1
            } else {
                old(self).actors.selected as int
            },
    {
        self.actors.select_next();
    }

    /// Records the number of actors of a poll.
    pub fn append_actor_count(&mut self, c: u64)
        ensures
            final(self).actor_counts@ == recorded(old(self).actor_counts@, c, 25),
            final(self).actors == old(self).actors,
    {
        record(&mut self.actor_counts, c, Self::MAX_ACTOR_COUNT_MEASURES);
    }
}

} // verus!
