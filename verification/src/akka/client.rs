//! Assembly of the actor tree from the nested object that the actor-tree
//! endpoint answers.
//!
//! The endpoint answers an object keyed by path segment whose values are
//! objects of the same kind. The actors are numbered in the order in which
//! a depth-first walk meets them, starting at 1; the entries named `user`
//! at the top are walked before the others.

use vstd::prelude::*;
use vstd::string::*;
use crate::akka::model::ActorTreeNode;
use crate::widgets::tree::{node_views, pinned_label, NodeView};

verus! {

/// One key of the answered object with the object below it.
#[derive(Debug, PartialEq, Eq)]
pub struct ActorPath {
    pub name: String,
    pub children: Vec<ActorPath>,
}

/// Number of actors in `forest`.
pub open spec fn forest_size(forest: Seq<ActorPath>) -> nat
    decreases forest,
{
    if forest.len() == 0 {
        0
    } else {
        forest_size(forest.drop_last()) + 1 + forest_size(forest.last().children@)
    }
}

/// The actors of `forest` in depth-first order, each numbered by its
/// place in the walk: the first gets `first_id`. The roots of `forest`
/// hang under `parent`.
pub open spec fn forest_nodes(forest: Seq<ActorPath>, parent: Option<usize>, first_id: nat) -> Seq<
    NodeView,
>
    decreases forest,
{
    if forest.len() == 0 {
        Seq::empty()
    } else {
        let before = forest_nodes(forest.drop_last(), parent, first_id);
        let id = (first_id + before.len()) as usize;
        before.push(NodeView { id, parent, label: forest.last().name@ }) + forest_nodes(
            forest.last().children@,
            Some(id),
            first_id + before.len() + 1,
        )
    }
}


/// The entries of `forest` whose being named `user` is `pinned`, in order.
pub open spec fn entries_named(forest: Seq<ActorPath>, pinned: bool) -> Seq<ActorPath>
    decreases forest.len(),
{
    if forest.len() == 0 {
        Seq::empty()
    } else {
        let rest = entries_named(forest.drop_last(), pinned);
        if (forest.last().name@ == pinned_label()) == pinned {
            rest.push(forest.last())
        } else {
            rest
        }
    }
}

/// The top-level entries in the order in which they are walked: those
/// named `user` first.
pub open spec fn user_first(top: Seq<ActorPath>) -> Seq<ActorPath> {
    entries_named(top, true) + entries_named(top, false)
}

/// The actors of the answered object `top`: a depth-first walk of
/// `user_first(top)`, numbered from 1, the top-level actors without parent.
pub open spec fn actor_nodes(top: Seq<ActorPath>) -> Seq<NodeView> {
    forest_nodes(user_first(top), None, 1)
}

/// A forest has as many nodes as it has actors.
pub proof fn lemma_forest_nodes_len(forest: Seq<ActorPath>, parent: Option<usize>, first_id: nat)
    ensures
        forest_nodes(forest, parent, first_id).len() == forest_size(forest),
    decreases forest,
{
    if forest.len() > 0 {
        let before = forest_nodes(forest.drop_last(), parent, first_id);
        lemma_forest_nodes_len(forest.drop_last(), parent, first_id);
        lemma_forest_nodes_len(
            forest.last().children@,
            Some((first_id + before.len()) as usize),
            first_id + before.len() + 1,
        );
    }
}

/// Appends one actor named `name` under `parent` and returns its id, its
/// place in the walk.
fn push_actor(actors: &mut Vec<ActorTreeNode>, name: &String, parent: Option<usize>) -> (id: usize)
    ensures
        id == old(actors)@.len() + 1,
        node_views(final(actors)@) == node_views(old(actors)@).push(
            NodeView { id, parent, label: name@ },
        ),
{
    actors.push(ActorTreeNode { name: name.clone(), parent, id: 0 });
    let id = actors.len();
    actors[id - 1].id = id;
    assert(node_views(actors@) =~= node_views(old(actors)@).push(
        NodeView { id, parent, label: name@ },
    ));
    id
}

/// Appends the actors of `forest`, which hang under `parent_id`, to
/// `actors` in depth-first order.
fn build_actor_tree_iter(
    forest: &Vec<ActorPath>,
    parent_id: Option<usize>,
    actors: &mut Vec<ActorTreeNode>,
)
    ensures
        node_views(final(actors)@) == node_views(old(actors)@) + forest_nodes(
            forest@,
            parent_id,
            old(actors)@.len() + 1,
        ),
    decreases forest,
{
    let ghost start = node_views(actors@);
    let ghost first_id = actors@.len() + 1;
    let mut k: usize = 0;
    assert(node_views(actors@) =~= start + forest_nodes(forest@.take(0), parent_id, first_id));
    while k < forest.len()
        invariant
            k <= forest@.len(),
            start.len() + 1 == first_id,
            node_views(actors@) == start + forest_nodes(forest@.take(k as int), parent_id, first_id),
        decreases forest@.len() - k,
    {
        let ghost done = forest_nodes(forest@.take(k as int), parent_id, first_id);
        let id = push_actor(actors, &forest[k].name, parent_id);
        build_actor_tree_iter(&forest[k].children, Some(id), actors);
        proof {
            let upto = forest@.take(k + 1);
            assert(upto.drop_last() =~= forest@.take(k as int));
            assert(upto.last() == forest@[k as int]);
            assert(node_views(actors@) =~= start + forest_nodes(upto, parent_id, first_id));
        }
        k = k + 1;
    }
    assert(forest@.take(k as int) =~= forest@);
}

/// Appends to `actors` the trees of the top-level entries whose being
/// named `user` is `pinned`. `walked` is the part of the forest that is
/// in `actors` already.
fn build_entries_named(
    top: &Vec<ActorPath>,
    pinned: bool,
    actors: &mut Vec<ActorTreeNode>,
    Ghost(walked): Ghost<Seq<ActorPath>>,
)
    requires
        node_views(old(actors)@) == forest_nodes(walked, None, 1),
    ensures
        node_views(final(actors)@) == forest_nodes(walked + entries_named(top@, pinned), None, 1),
{
    proof {
        reveal_strlit("user");
    }
    let user = "user".to_owned();
    assert(user@ =~= pinned_label());
    let mut k: usize = 0;
    assert(walked + entries_named(top@.take(0), pinned) =~= walked);
    while k < top.len()
        invariant
            k <= top@.len(),
            user@ == pinned_label(),
            node_views(actors@) == forest_nodes(
                walked + entries_named(top@.take(k as int), pinned),
                None,
                1,
            ),
        decreases top@.len() - k,
    {
        let ghost done = walked + entries_named(top@.take(k as int), pinned);
        proof {
            assert(top@.take(k + 1).drop_last() =~= top@.take(k as int));
            assert(top@.take(k + 1).last() == top@[k as int]);
            lemma_forest_nodes_len(done, None, 1);
        }
        if (top[k].name == user) == pinned {
            let id = push_actor(actors, &top[k].name, None);
            build_actor_tree_iter(&top[k].children, Some(id), actors);
            proof {
                let next = done.push(top@[k as int]);
                assert(next =~= walked + entries_named(top@.take(k + 1), pinned));
                assert(next.drop_last() =~= done);
                assert(node_views(actors@) =~= forest_nodes(next, None, 1));
            }
        }
        k = k + 1;
    }
    assert(top@.take(k as int) =~= top@);
}

/// Lists the actors of the answered object `top`, numbered from 1 in the
/// order of a depth-first walk that takes the entries named `user` first.
pub fn build_actor_tree(top: &Vec<ActorPath>) -> (actors: Vec<ActorTreeNode>)
    ensures
        node_views(actors@) == actor_nodes(top@),
{
    let mut actors: Vec<ActorTreeNode> = Vec::new();
    assert(node_views(actors@) =~= forest_nodes(Seq::empty(), None, 1));
    build_entries_named(top, true, &mut actors, Ghost(Seq::empty()));
    assert(Seq::<ActorPath>::empty() + entries_named(top@, true) =~= entries_named(top@, true));
    build_entries_named(top, false, &mut actors, Ghost(entries_named(top@, true)));
    actors
}

} // verus!
