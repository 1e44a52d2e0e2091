//! What holds of the rows of a forest: every node has one row, a node
//! stands below its parent, and the pinned roots come first.

use vstd::prelude::*;
use crate::widgets::tree::{
    child_of,
    children_of,
    group_rows,
    has_id,
    is_pinned,
    is_root,
    pick,
    pinned_roots,
    plain_roots,
    root_order,
    subtree_rows,
    tree_rows,
    NodeView,
    Row,
};

verus! {

/// No two nodes carry the same id.
#[verifier::opaque]
pub open spec fn distinct_ids(nodes: Seq<NodeView>) -> bool {
    forall|i: int, j: int|
        0 <= i < j < nodes.len() ==> (#[trigger] nodes[i]).id != (#[trigger] nodes[j]).id
}

/// A node that carries the id which node `i` names as its parent.
pub open spec fn parent_index(nodes: Seq<NodeView>, i: int) -> int {
    choose|p: int| 0 <= p < nodes.len() && (#[trigger] nodes[p]).id == nodes[i].parent->0
}

/// Node `i` is a root, or a root is reached from it by following at most
/// `steps` parent links.
pub open spec fn within(nodes: Seq<NodeView>, i: int, steps: nat) -> bool
    decreases steps,
{
    is_root(nodes, i) || (steps > 0 && within(nodes, parent_index(nodes, i), (steps - 1) as nat))
}

/// The nodes form a forest: their ids are distinct, and the parent links
/// of every node lead to a root. Among `n` nodes no such chain has more
/// than `n - 1` links.
pub open spec fn is_forest(nodes: Seq<NodeView>) -> bool {
    &&& nodes.len() <= usize::MAX
    &&& distinct_ids(nodes)
    &&& forall|i: int|
        0 <= i < nodes.len() ==> #[trigger] within(nodes, i, (nodes.len() - 1) as nat)
}

/// The node that is `k` parent links above node `i`, if the links lead
/// that far: a root has no parent.
pub open spec fn ancestor(nodes: Seq<NodeView>, i: int, k: nat) -> Option<int>
    decreases k,
{
    if k == 0 {
        Some(i)
    } else {
        match ancestor(nodes, i, (k - 1) as nat) {
            Some(a) => if is_root(nodes, a) {
                None
            } else {
                Some(parent_index(nodes, a))
            },
            None => None,
        }
    }
}

/// No node is its own ancestor.
pub open spec fn acyclic(nodes: Seq<NodeView>) -> bool {
    forall|i: int, k: nat|
        0 <= i < nodes.len() && k >= 1 ==> #[trigger] ancestor(nodes, i, k) != Some(i)
}

/// The nodes in the order of their rows.
pub open spec fn row_order(rows: Seq<Row>) -> Seq<int> {
    Seq::new(rows.len(), |k: int| rows[k].index as int)
}

/// Number of parent links between node `i` and its root, as far as
/// `cap` links are followed.
spec fn depth(nodes: Seq<NodeView>, i: int, cap: nat) -> nat
    decreases cap,
{
    if cap == 0 || is_root(nodes, i) {
        0
    } else {
        1 + depth(nodes, parent_index(nodes, i), (cap - 1) as nat)
    }
}

/// `levels` gives every node its distance from its root.
#[verifier::opaque]
spec fn levelled(nodes: Seq<NodeView>, levels: Seq<nat>) -> bool {
    &&& levels.len() == nodes.len()
    &&& forall|i: int|
        0 <= i < nodes.len() ==> {
            &&& (#[trigger] levels[i]) < nodes.len()
            &&& is_root(nodes, i) ==> levels[i] == 0
            &&& !is_root(nodes, i) ==> {
                &&& 0 <= parent_index(nodes, i) < nodes.len()
                &&& nodes[parent_index(nodes, i)].id == nodes[i].parent->0
                &&& levels[i] == levels[parent_index(nodes, i)] + 1
            }
        }
}

proof fn lemma_parent_index(nodes: Seq<NodeView>, i: int)
    requires
        0 <= i < nodes.len(),
        !is_root(nodes, i),
    ensures
        0 <= parent_index(nodes, i) < nodes.len(),
        nodes[parent_index(nodes, i)].id == nodes[i].parent->0,
{
    let id = nodes[i].parent->0;
    assert(has_id(nodes, id));
    let p = choose|p: int| 0 <= p < nodes.len() && (#[trigger] nodes[p]).id == id;
    assert(0 <= p < nodes.len() && nodes[p].id == id);
}

proof fn lemma_depth_settles(nodes: Seq<NodeView>, i: int, steps: nat, cap: nat)
    requires
        within(nodes, i, steps),
        cap >= steps,
    ensures
        depth(nodes, i, cap) == depth(nodes, i, steps),
        depth(nodes, i, steps) <= steps,
    decreases steps,
{
    if !is_root(nodes, i) {
        lemma_depth_settles(
            nodes,
            parent_index(nodes, i),
            (steps - 1) as nat,
            (cap - 1) as nat,
        );
    }
}

proof fn lemma_forest_is_levelled(nodes: Seq<NodeView>) -> (levels: Seq<nat>)
    requires
        is_forest(nodes),
    ensures
        levelled(nodes, levels),
{
    reveal(levelled);
    let n = nodes.len();
    let levels = Seq::new(n, |i: int| depth(nodes, i, n));
    assert forall|i: int| 0 <= i < n implies {
        &&& (#[trigger] levels[i]) < n
        &&& is_root(nodes, i) ==> levels[i] == 0
        &&& !is_root(nodes, i) ==> {
            &&& 0 <= parent_index(nodes, i) < n
            &&& nodes[parent_index(nodes, i)].id == nodes[i].parent->0
            &&& levels[i] == levels[parent_index(nodes, i)] + 1
        }
    } by {
        assert(within(nodes, i, (n - 1) as nat));
        lemma_depth_settles(nodes, i, (n - 1) as nat, n);
        if !is_root(nodes, i) {
            lemma_parent_index(nodes, i);
            let p = parent_index(nodes, i);
            assert(within(nodes, p, (n - 2) as nat));
            lemma_depth_settles(nodes, p, (n - 2) as nat, n);
            lemma_depth_settles(nodes, p, (n - 2) as nat, (n - 1) as nat);
        }
    }
    levels
}


/// The nodes of the subtree of node `i` in the order of their rows.
spec fn subtree_order(nodes: Seq<NodeView>, i: int, fuel: nat) -> Seq<int>
    decreases fuel, 0nat, 0nat,
{
    if fuel == 0 {
        Seq::empty()
    } else {
        seq![i] + group_order(nodes, children_of(nodes, nodes[i].id), 0, (fuel - 1) as nat)
    }
}

/// The nodes of the subtrees of `group[from..]` in the order of their rows.
spec fn group_order(nodes: Seq<NodeView>, group: Seq<usize>, from: nat, fuel: nat) -> Seq<int>
    decreases fuel, 1nat, group.len() - from,
{
    if from >= group.len() {
        Seq::empty()
    } else {
        subtree_order(nodes, group[from as int] as int, fuel) + group_order(
            nodes,
            group,
            from + 1,
            fuel,
        )
    }
}

proof fn lemma_subtree_order(
    nodes: Seq<NodeView>,
    i: usize,
    indent: Seq<char>,
    last: bool,
    print_ids: bool,
    fuel: nat,
)
    ensures
        row_order(subtree_rows(nodes, i, indent, last, print_ids, fuel)) == subtree_order(
            nodes,
            i as int,
            fuel,
        ),
    decreases fuel, 0nat, 0nat,
{
    let rows = subtree_rows(nodes, i, indent, last, print_ids, fuel);
    if fuel > 0 {
        let below = group_rows(
            nodes,
            children_of(nodes, nodes[i as int].id),
            0,
            indent + crate::widgets::tree::continuation(last),
            print_ids,
            (fuel - 1) as nat,
        );
        lemma_group_order(
            nodes,
            children_of(nodes, nodes[i as int].id),
            0,
            indent + crate::widgets::tree::continuation(last),
            print_ids,
            (fuel - 1) as nat,
        );
        assert(row_order(rows) =~= seq![i as int] + row_order(below));
    } else {
        assert(row_order(rows) =~= Seq::<int>::empty());
    }
}

proof fn lemma_group_order(
    nodes: Seq<NodeView>,
    group: Seq<usize>,
    from: nat,
    indent: Seq<char>,
    print_ids: bool,
    fuel: nat,
)
    ensures
        row_order(group_rows(nodes, group, from, indent, print_ids, fuel)) == group_order(
            nodes,
            group,
            from,
            fuel,
        ),
    decreases fuel, 1nat, group.len() - from,
{
    let rows = group_rows(nodes, group, from, indent, print_ids, fuel);
    if from < group.len() {
        let first = subtree_rows(
            nodes,
            group[from as int],
            indent,
            from + 1 == group.len(),
            print_ids,
            fuel,
        );
        let rest = group_rows(nodes, group, from + 1, indent, print_ids, fuel);
        lemma_subtree_order(nodes, group[from as int], indent, from + 1 == group.len(), print_ids, fuel);
        lemma_group_order(nodes, group, from + 1, indent, print_ids, fuel);
        assert(row_order(rows) =~= row_order(first) + row_order(rest));
    } else {
        assert(row_order(rows) =~= Seq::<int>::empty());
    }
}

/// What `pick` returns: indices below the bound that satisfy `keep`, in
/// increasing order, and all of them.
proof fn lemma_pick(n: nat, keep: spec_fn(int) -> bool)
    requires
        n <= usize::MAX,
    ensures
        forall|k: int|
            0 <= k < pick(n, keep).len() ==> (#[trigger] pick(n, keep)[k]) < n && keep(
                pick(n, keep)[k] as int,
            ),
        forall|a: int, b: int|
            0 <= a < b < pick(n, keep).len() ==> (#[trigger] pick(n, keep)[a]) < (#[trigger] pick(
                n,
                keep,
            )[b]),
    decreases n,
{
    if n > 0 {
        let rest = pick((n - 1) as nat, keep);
        let all = pick(n, keep);
        lemma_pick((n - 1) as nat, keep);
        assert forall|k: int| 0 <= k < all.len() implies (#[trigger] all[k]) < n && keep(
            all[k] as int,
        ) by {
            if k < rest.len() {
                assert(all[k] == rest[k]);
            }
        }
        assert forall|a: int, b: int| 0 <= a < b < all.len() implies (#[trigger] all[a]) < (
        #[trigger] all[b]) by {
            assert(all[a] == rest[a]);
            if b < rest.len() {
                assert(all[b] == rest[b]);
            }
        }
    }
}

/// `pick` leaves out no index that satisfies `keep`.
proof fn lemma_pick_has(n: nat, keep: spec_fn(int) -> bool, i: int)
    requires
        n <= usize::MAX,
        0 <= i < n,
        keep(i),
    ensures
        exists|k: int| 0 <= k < pick(n, keep).len() && (#[trigger] pick(n, keep)[k]) == i,
    decreases n,
{
    let rest = pick((n - 1) as nat, keep);
    let all = pick(n, keep);
    if i == n - 1 {
        assert(all[all.len() - 1] == i);
    } else {
        lemma_pick_has((n - 1) as nat, keep, i);
        let k = choose|k: int| 0 <= k < rest.len() && (#[trigger] rest[k]) == i;
        assert(all[k] == rest[k]);
    }
}

/// The node that is `k` parent links above node `j`.
spec fn anc(nodes: Seq<NodeView>, j: int, k: nat) -> int
    decreases k,
{
    if k == 0 {
        j
    } else {
        parent_index(nodes, anc(nodes, j, (k - 1) as nat))
    }
}

proof fn lemma_anc(nodes: Seq<NodeView>, levels: Seq<nat>, j: int, k: nat)
    requires
        levelled(nodes, levels),
        0 <= j < nodes.len(),
        k <= levels[j],
    ensures
        0 <= anc(nodes, j, k) < nodes.len(),
        levels[anc(nodes, j, k)] == levels[j] - k,
    decreases k,
{
    if k > 0 {
        lemma_anc(nodes, levels, j, (k - 1) as nat);
        let a = anc(nodes, j, (k - 1) as nat);
        lemma_level(nodes, levels, a);
    }
}

/// Node `x` is node `i` or stands somewhere below it.
spec fn under(nodes: Seq<NodeView>, levels: Seq<nat>, x: int, i: int) -> bool {
    levels[x] >= levels[i] && anc(nodes, x, (levels[x] - levels[i]) as nat) == i
}

/// `v` is one of `group[from..]`.
spec fn in_group(group: Seq<usize>, from: nat, v: int) -> bool {
    exists|m: int| from <= m < group.len() && (#[trigger] group[m]) as int == v
}

/// Node `x` stands in the subtree of one of `group[from..]`, whose nodes
/// are on level `d`, less than `fuel` levels below.
spec fn in_subtrees(
    nodes: Seq<NodeView>,
    levels: Seq<nat>,
    group: Seq<usize>,
    from: nat,
    d: nat,
    fuel: nat,
    x: int,
) -> bool {
    &&& 0 <= x < nodes.len()
    &&& levels[x] >= d
    &&& levels[x] - d < fuel
    &&& in_group(group, from, anc(nodes, x, (levels[x] - d) as nat))
}

/// The members of `group` are different nodes on level `d`.
spec fn siblings(nodes: Seq<NodeView>, levels: Seq<nat>, group: Seq<usize>, d: nat) -> bool {
    &&& forall|m: int|
        0 <= m < group.len() ==> (#[trigger] group[m]) < nodes.len() && levels[group[m] as int]
            == d
    &&& forall|a: int, b: int|
        0 <= a < b < group.len() ==> (#[trigger] group[a]) != (#[trigger] group[b])
}

/// What `levelled` says of node `i`.
proof fn lemma_level(nodes: Seq<NodeView>, levels: Seq<nat>, i: int)
    requires
        levelled(nodes, levels),
        0 <= i < nodes.len(),
    ensures
        levels[i] < nodes.len(),
        is_root(nodes, i) <==> levels[i] == 0,
        !is_root(nodes, i) ==> {
            &&& 0 <= parent_index(nodes, i) < nodes.len()
            &&& nodes[parent_index(nodes, i)].id == nodes[i].parent->0
            &&& levels[i] == levels[parent_index(nodes, i)] + 1
        },
{
    reveal(levelled);
    assert(levels[i] < nodes.len());
}

/// Nodes with the same id are the same node.
proof fn lemma_same_id(nodes: Seq<NodeView>, a: int, b: int)
    requires
        distinct_ids(nodes),
        0 <= a < nodes.len(),
        0 <= b < nodes.len(),
        nodes[a].id == nodes[b].id,
    ensures
        a == b,
{
    reveal(distinct_ids);
    if a < b {
        assert(nodes[a].id != nodes[b].id);
    }
    if b < a {
        assert(nodes[b].id != nodes[a].id);
    }
}

/// A node that names the id of node `i` as its parent hangs under node
/// `i`, one level below it.
proof fn lemma_child(nodes: Seq<NodeView>, levels: Seq<nat>, i: int, c: int)
    requires
        distinct_ids(nodes),
        levelled(nodes, levels),
        0 <= i < nodes.len(),
        0 <= c < nodes.len(),
        nodes[c].parent == Some(nodes[i].id),
    ensures
        !is_root(nodes, c),
        parent_index(nodes, c) == i,
        levels[c] == levels[i] + 1,
{
    assert(has_id(nodes, nodes[i].id));
    lemma_level(nodes, levels, c);
    lemma_same_id(nodes, parent_index(nodes, c), i);
}

/// The children of a node are different nodes on the level below it.
proof fn lemma_children(nodes: Seq<NodeView>, levels: Seq<nat>, i: int)
    requires
        nodes.len() <= usize::MAX,
        distinct_ids(nodes),
        levelled(nodes, levels),
        0 <= i < nodes.len(),
    ensures
        siblings(nodes, levels, children_of(nodes, nodes[i].id), levels[i] + 1),
        forall|m: int|
            0 <= m < children_of(nodes, nodes[i].id).len() ==> parent_index(
                nodes,
                (#[trigger] children_of(nodes, nodes[i].id)[m]) as int,
            ) == i,
{
    let id = nodes[i].id;
    let group = children_of(nodes, id);
    lemma_pick(nodes.len(), child_of(nodes, id));
    assert forall|m: int| 0 <= m < group.len() implies (#[trigger] group[m]) < nodes.len()
        && levels[group[m] as int] == levels[i] + 1 && parent_index(nodes, group[m] as int)
        == i by {
        let c = group[m] as int;
        assert(child_of(nodes, id)(c));
        lemma_child(nodes, levels, i, c);
    }
}

/// Every node that hangs under node `i` is among its children.
proof fn lemma_child_listed(nodes: Seq<NodeView>, levels: Seq<nat>, i: int, c: int)
    requires
        nodes.len() <= usize::MAX,
        levelled(nodes, levels),
        0 <= i < nodes.len(),
        0 <= c < nodes.len(),
        !is_root(nodes, c),
        parent_index(nodes, c) == i,
    ensures
        in_group(children_of(nodes, nodes[i].id), 0, c),
{
    let id = nodes[i].id;
    let group = children_of(nodes, id);
    lemma_level(nodes, levels, c);
    assert(nodes[c].parent == Some(id));
    assert(child_of(nodes, id)(c));
    lemma_pick_has(nodes.len(), child_of(nodes, id), c);
    let k = choose|k: int| 0 <= k < group.len() && (#[trigger] group[k]) == c;
    assert(group[k] as int == c);
}


/// Node `x` stands in the subtree of node `i`, less than `fuel` levels
/// below it.
spec fn in_subtree(nodes: Seq<NodeView>, levels: Seq<nat>, i: int, fuel: nat, x: int) -> bool {
    &&& 0 <= x < nodes.len()
    &&& under(nodes, levels, x, i)
    &&& levels[x] - levels[i] < fuel
}

/// The rows of a subtree show each node of the subtree once, and no other
/// node.
proof fn lemma_subtree(nodes: Seq<NodeView>, levels: Seq<nat>, i: int, fuel: nat)
    requires
        nodes.len() <= usize::MAX,
        distinct_ids(nodes),
        levelled(nodes, levels),
        0 <= i < nodes.len(),
    ensures
        subtree_order(nodes, i, fuel).no_duplicates(),
        forall|x: int| #[trigger]
            subtree_order(nodes, i, fuel).contains(x) <==> in_subtree(nodes, levels, i, fuel, x),
    decreases fuel, 0nat, 0nat,
{
    let order = subtree_order(nodes, i, fuel);
    if fuel > 0 {
        let group = children_of(nodes, nodes[i].id);
        let d = levels[i] + 1;
        let below = group_order(nodes, group, 0, (fuel - 1) as nat);
        lemma_children(nodes, levels, i);
        lemma_group(nodes, levels, group, 0, d, (fuel - 1) as nat);
        assert(order == seq![i] + below);
        assert forall|a: int, b: int| 0 <= a < 1 && 0 <= b < below.len() implies seq![i][a]
            != below[b] by {
            assert(below.contains(below[b]));
            assert(in_subtrees(nodes, levels, group, 0, d, (fuel - 1) as nat, below[b]));
        }
        vstd::seq_lib::lemma_no_dup_in_concat(seq![i], below);
        assert forall|x: int| #[trigger] order.contains(x) <==> in_subtree(
            nodes,
            levels,
            i,
            fuel,
            x,
        ) by {
            if order.contains(x) {
                let k = choose|k: int| 0 <= k < order.len() && order[k] == x;
                if k == 0 {
                    assert(x == i);
                    assert(anc(nodes, i, 0) == i);
                } else {
                    assert(below[k - 1] == x);
                    assert(below.contains(x));
                    assert(in_subtrees(nodes, levels, group, 0, d, (fuel - 1) as nat, x));
                    let c = anc(nodes, x, (levels[x] - d) as nat);
                    let m = choose|m: int| 0 <= m < group.len() && (#[trigger] group[m]) as int == c;
                    assert(parent_index(nodes, group[m] as int) == i);
                    assert(anc(nodes, x, (levels[x] - levels[i]) as nat) == parent_index(nodes, c));
                }
            }
            if in_subtree(nodes, levels, i, fuel, x) {
                if levels[x] == levels[i] {
                    assert(anc(nodes, x, 0) == x);
                    assert(order[0] == x);
                } else {
                    let k = (levels[x] - levels[i]) as nat;
                    let c = anc(nodes, x, (k - 1) as nat);
                    lemma_anc(nodes, levels, x, (k - 1) as nat);
                    lemma_level(nodes, levels, c);
                    assert(parent_index(nodes, c) == anc(nodes, x, k));
                    lemma_child_listed(nodes, levels, i, c);
                    assert(in_subtrees(nodes, levels, group, 0, d, (fuel - 1) as nat, x));
                    assert(below.contains(x));
                    let b = choose|b: int| 0 <= b < below.len() && below[b] == x;
                    assert(order[b + 1] == x);
                }
            }
        }
    }
}

/// The rows of the subtrees of siblings show each node of those subtrees
/// once, and no other node.
proof fn lemma_group(
    nodes: Seq<NodeView>,
    levels: Seq<nat>,
    group: Seq<usize>,
    from: nat,
    d: nat,
    fuel: nat,
)
    requires
        nodes.len() <= usize::MAX,
        distinct_ids(nodes),
        levelled(nodes, levels),
        siblings(nodes, levels, group, d),
    ensures
        group_order(nodes, group, from, fuel).no_duplicates(),
        forall|x: int| #[trigger]
            group_order(nodes, group, from, fuel).contains(x) <==> in_subtrees(
                nodes,
                levels,
                group,
                from,
                d,
                fuel,
                x,
            ),
    decreases fuel, 1nat, group.len() - from,
{
    let order = group_order(nodes, group, from, fuel);
    if from < group.len() {
        let head = group[from as int] as int;
        let first = subtree_order(nodes, head, fuel);
        let rest = group_order(nodes, group, from + 1, fuel);
        lemma_subtree(nodes, levels, head, fuel);
        lemma_group(nodes, levels, group, from + 1, d, fuel);
        assert(order == first + rest);
        assert forall|a: int, b: int| 0 <= a < first.len() && 0 <= b < rest.len() implies first[a]
            != rest[b] by {
            assert(first.contains(first[a]));
            assert(rest.contains(rest[b]));
            if first[a] == rest[b] {
                let x = first[a];
                assert(in_subtree(nodes, levels, head, fuel, x));
                assert(in_subtrees(nodes, levels, group, from + 1, d, fuel, x));
                let c = anc(nodes, x, (levels[x] - d) as nat);
                let m = choose|m: int|
                    from + 1 <= m < group.len() && (#[trigger] group[m]) as int == c;
                assert(group[from as int] != group[m]);
            }
        }
        vstd::seq_lib::lemma_no_dup_in_concat(first, rest);
        assert forall|x: int| #[trigger] order.contains(x) <==> in_subtrees(
            nodes,
            levels,
            group,
            from,
            d,
            fuel,
            x,
        ) by {
            if order.contains(x) {
                let k = choose|k: int| 0 <= k < order.len() && order[k] == x;
                if k < first.len() {
                    assert(first[k] == x);
                    assert(first.contains(x));
                    assert(in_subtree(nodes, levels, head, fuel, x));
                    assert(group[from as int] as int == anc(nodes, x, (levels[x] - d) as nat));
                } else {
                    assert(rest[k - first.len()] == x);
                    assert(rest.contains(x));
                    assert(in_subtrees(nodes, levels, group, from + 1, d, fuel, x));
                    let c = anc(nodes, x, (levels[x] - d) as nat);
                    let m = choose|m: int|
                        from + 1 <= m < group.len() && (#[trigger] group[m]) as int == c;
                    assert(from <= m < group.len() && group[m] as int == c);
                }
            }
            if in_subtrees(nodes, levels, group, from, d, fuel, x) {
                let c = anc(nodes, x, (levels[x] - d) as nat);
                let m = choose|m: int| from <= m < group.len() && (#[trigger] group[m]) as int == c;
                if m == from {
                    assert(in_subtree(nodes, levels, head, fuel, x));
                    assert(first.contains(x));
                    let a = choose|a: int| 0 <= a < first.len() && first[a] == x;
                    assert(order[a] == x);
                } else {
                    assert(from + 1 <= m < group.len() && group[m] as int == c);
                    assert(in_subtrees(nodes, levels, group, from + 1, d, fuel, x));
                    assert(rest.contains(x));
                    let b = choose|b: int| 0 <= b < rest.len() && rest[b] == x;
                    assert(order[first.len() + b] == x);
                }
            }
        }
    } else {
        assert forall|x: int| #[trigger] order.contains(x) <==> in_subtrees(
            nodes,
            levels,
            group,
            from,
            d,
            fuel,
            x,
        ) by {}
    }
}


/// The roots are different nodes on level 0.
proof fn lemma_roots(nodes: Seq<NodeView>, levels: Seq<nat>)
    requires
        nodes.len() <= usize::MAX,
        levelled(nodes, levels),
    ensures
        siblings(nodes, levels, root_order(nodes), 0),
{
    let pinned = pick(nodes.len(), pinned_roots(nodes));
    let plain = pick(nodes.len(), plain_roots(nodes));
    let roots = root_order(nodes);
    lemma_pick(nodes.len(), pinned_roots(nodes));
    lemma_pick(nodes.len(), plain_roots(nodes));
    assert forall|m: int| 0 <= m < roots.len() implies (#[trigger] roots[m]) < nodes.len()
        && levels[roots[m] as int] == 0 && is_root(nodes, roots[m] as int) && (m < pinned.len()
        <==> is_pinned(nodes, roots[m] as int)) by {
        if m < pinned.len() {
            assert(roots[m] == pinned[m]);
            assert(pinned_roots(nodes)(pinned[m] as int));
        } else {
            assert(roots[m] == plain[m - pinned.len()]);
            assert(plain_roots(nodes)(plain[m - pinned.len()] as int));
        }
        lemma_level(nodes, levels, roots[m] as int);
    }
    assert forall|a: int, b: int| 0 <= a < b < roots.len() implies (#[trigger] roots[a]) != (
    #[trigger] roots[b]) by {
        if b < pinned.len() {
            assert(roots[a] == pinned[a] && roots[b] == pinned[b]);
        } else if a >= pinned.len() {
            assert(roots[a] == plain[a - pinned.len()] && roots[b] == plain[b - pinned.len()]);
        } else {
            assert(is_pinned(nodes, roots[a] as int));
            assert(!is_pinned(nodes, roots[b] as int));
        }
    }
}

/// Every root is among the roots that are walked.
proof fn lemma_root_listed(nodes: Seq<NodeView>, r: int)
    requires
        nodes.len() <= usize::MAX,
        0 <= r < nodes.len(),
        is_root(nodes, r),
    ensures
        in_group(root_order(nodes), 0, r),
{
    let pinned = pick(nodes.len(), pinned_roots(nodes));
    let plain = pick(nodes.len(), plain_roots(nodes));
    let roots = root_order(nodes);
    if is_pinned(nodes, r) {
        assert(pinned_roots(nodes)(r));
        lemma_pick_has(nodes.len(), pinned_roots(nodes), r);
        let k = choose|k: int| 0 <= k < pinned.len() && (#[trigger] pinned[k]) == r;
        assert(roots[k] as int == r);
    } else {
        assert(plain_roots(nodes)(r));
        lemma_pick_has(nodes.len(), plain_roots(nodes), r);
        let k = choose|k: int| 0 <= k < plain.len() && (#[trigger] plain[k]) == r;
        assert(roots[pinned.len() + k] as int == r);
    }
}

/// In a forest every node has exactly one row: the rows are as many as
/// the nodes, no two rows show the same node, and no node is without a
/// row.
pub proof fn lemma_every_node_has_one_row(nodes: Seq<NodeView>, print_ids: bool)
    requires
        is_forest(nodes),
    ensures
        tree_rows(nodes, print_ids).len() == nodes.len(),
        row_order(tree_rows(nodes, print_ids)).no_duplicates(),
        forall|i: int|
            0 <= i < nodes.len() ==> #[trigger] row_order(tree_rows(nodes, print_ids)).contains(i),
        forall|k: int|
            0 <= k < tree_rows(nodes, print_ids).len() ==> (#[trigger] tree_rows(
                nodes,
                print_ids,
            )[k]).index < nodes.len(),
{
    let n = nodes.len();
    let rows = tree_rows(nodes, print_ids);
    let order = row_order(rows);
    let roots = root_order(nodes);
    let levels = lemma_forest_is_levelled(nodes);
    lemma_group_order(nodes, roots, 0, Seq::empty(), print_ids, n);
    lemma_roots(nodes, levels);
    lemma_group(nodes, levels, roots, 0, 0, n);
    assert forall|x: int| order.contains(x) <==> 0 <= x < n by {
        if 0 <= x < n {
            lemma_level(nodes, levels, x);
            lemma_anc(nodes, levels, x, levels[x]);
            let r = anc(nodes, x, levels[x]);
            lemma_level(nodes, levels, r);
            lemma_root_listed(nodes, r);
            assert(in_subtrees(nodes, levels, roots, 0, 0, n, x));
        }
        if order.contains(x) {
            assert(in_subtrees(nodes, levels, roots, 0, 0, n, x));
        }
    }
    order.unique_seq_to_set();
    vstd::set_lib::lemma_int_range(0, n as int);
    assert(order.to_set() =~= vstd::set_lib::set_int_range(0, n as int));
    assert(order.len() == rows.len());
    assert forall|k: int| 0 <= k < rows.len() implies (#[trigger] rows[k]).index < n by {
        assert(order[k] == rows[k].index);
        assert(order.contains(order[k]));
    }
}

/// Where a root is pinned, the first row shows a pinned root.
pub proof fn lemma_pinned_root_comes_first(nodes: Seq<NodeView>, print_ids: bool, i: int)
    requires
        nodes.len() <= usize::MAX,
        0 <= i < nodes.len(),
        is_pinned(nodes, i),
    ensures
        tree_rows(nodes, print_ids).len() > 0,
        tree_rows(nodes, print_ids)[0].index < nodes.len(),
        is_pinned(nodes, tree_rows(nodes, print_ids)[0].index as int),
{
    let n = nodes.len();
    let pinned = pick(n, pinned_roots(nodes));
    let roots = root_order(nodes);
    assert(pinned_roots(nodes)(i));
    lemma_pick_has(n, pinned_roots(nodes), i);
    lemma_pick(n, pinned_roots(nodes));
    assert(roots[0] == pinned[0]);
    assert(pinned_roots(nodes)(pinned[0] as int));
    let first = subtree_rows(nodes, roots[0], Seq::empty(), 1 == roots.len(), print_ids, n);
    assert(first.len() > 0);
    assert(first[0].index == roots[0]);
    let rows = tree_rows(nodes, print_ids);
    assert(rows == first + group_rows(nodes, roots, 1, Seq::empty(), print_ids, n));
    assert(rows[0] == first[0]);
}


/// The node at place `k` of `order` names as its parent a node at an
/// earlier place.
spec fn parent_above(nodes: Seq<NodeView>, order: Seq<int>, k: int) -> bool {
    exists|j: int| 0 <= j < k && nodes[order[k]].parent == Some(nodes[#[trigger] order[j]].id)
}

/// Below the first row of a subtree every row has the row of its parent
/// above it.
proof fn lemma_subtree_parents(nodes: Seq<NodeView>, i: int, fuel: nat)
    requires
        nodes.len() <= usize::MAX,
        0 <= i < nodes.len(),
    ensures
        forall|k: int|
            0 <= k < subtree_order(nodes, i, fuel).len() ==> 0 <= (#[trigger] subtree_order(
                nodes,
                i,
                fuel,
            )[k]) < nodes.len(),
        forall|k: int|
            1 <= k < subtree_order(nodes, i, fuel).len() ==> #[trigger] parent_above(
                nodes,
                subtree_order(nodes, i, fuel),
                k,
            ),
    decreases fuel, 0nat, 0nat,
{
    let order = subtree_order(nodes, i, fuel);
    if fuel > 0 {
        let id = nodes[i].id;
        let group = children_of(nodes, id);
        let below = group_order(nodes, group, 0, (fuel - 1) as nat);
        lemma_pick(nodes.len(), child_of(nodes, id));
        lemma_group_parents(nodes, group, 0, (fuel - 1) as nat);
        assert(order == seq![i] + below);
        assert forall|k: int| 0 <= k < order.len() implies 0 <= (#[trigger] order[k])
            < nodes.len() by {
            if k > 0 {
                assert(order[k] == below[k - 1]);
            }
        }
        assert forall|k: int| 1 <= k < order.len() implies #[trigger] parent_above(
            nodes,
            order,
            k,
        ) by {
            assert(order[k] == below[k - 1]);
            if parent_above(nodes, below, k - 1) {
                let j = choose|j: int|
                    0 <= j < k - 1 && nodes[below[k - 1]].parent == Some(
                        nodes[#[trigger] below[j]].id,
                    );
                assert(order[j + 1] == below[j]);
            } else {
                assert(in_group(group, 0, below[k - 1]));
                let m = choose|m: int|
                    0 <= m < group.len() && (#[trigger] group[m]) as int == below[k - 1];
                assert(child_of(nodes, id)(group[m] as int));
                assert(order[0] == i);
            }
        }
    }
}

/// Every row of the subtrees of siblings has the row of its parent above
/// it, but for the first row of each subtree.
proof fn lemma_group_parents(nodes: Seq<NodeView>, group: Seq<usize>, from: nat, fuel: nat)
    requires
        nodes.len() <= usize::MAX,
        forall|m: int| 0 <= m < group.len() ==> (#[trigger] group[m]) < nodes.len(),
    ensures
        forall|k: int|
            0 <= k < group_order(nodes, group, from, fuel).len() ==> 0 <= (#[trigger] group_order(
                nodes,
                group,
                from,
                fuel,
            )[k]) < nodes.len(),
        forall|k: int|
            0 <= k < group_order(nodes, group, from, fuel).len() ==> (#[trigger] parent_above(
                nodes,
                group_order(nodes, group, from, fuel),
                k,
            )) || in_group(group, from, group_order(nodes, group, from, fuel)[k]),
    decreases fuel, 1nat, group.len() - from,
{
    let order = group_order(nodes, group, from, fuel);
    if from < group.len() {
        let head = group[from as int] as int;
        let first = subtree_order(nodes, head, fuel);
        let rest = group_order(nodes, group, from + 1, fuel);
        lemma_subtree_parents(nodes, head, fuel);
        lemma_group_parents(nodes, group, from + 1, fuel);
        assert(order == first + rest);
        assert forall|k: int| 0 <= k < order.len() implies 0 <= (#[trigger] order[k])
            < nodes.len() by {
            if k < first.len() {
                assert(order[k] == first[k]);
            } else {
                assert(order[k] == rest[k - first.len()]);
            }
        }
        assert forall|k: int| 0 <= k < order.len() implies (#[trigger] parent_above(
            nodes,
            order,
            k,
        )) || in_group(group, from, order[k]) by {
            if k < first.len() {
                assert(order[k] == first[k]);
                if k == 0 {
                    assert(first[0] == head);
                    assert(group[from as int] as int == order[k]);
                } else {
                    assert(parent_above(nodes, first, k));
                    let j = choose|j: int|
                        0 <= j < k && nodes[first[k]].parent == Some(nodes[#[trigger] first[j]].id);
                    assert(order[j] == first[j]);
                }
            } else {
                let b = k - first.len();
                assert(order[k] == rest[b]);
                if parent_above(nodes, rest, b) {
                    let j = choose|j: int|
                        0 <= j < b && nodes[rest[b]].parent == Some(nodes[#[trigger] rest[j]].id);
                    assert(order[first.len() + j] == rest[j]);
                } else {
                    assert(in_group(group, from + 1, rest[b]));
                    let m = choose|m: int|
                        from + 1 <= m < group.len() && (#[trigger] group[m]) as int == rest[b];
                    assert(from <= m < group.len() && group[m] as int == order[k]);
                }
            }
        }
    }
}

/// A node whose parent is among the nodes stands below its parent: the
/// row of a node that is no root has above it the row of a node that
/// carries the id of its parent.
pub proof fn lemma_parent_row_is_above(nodes: Seq<NodeView>, print_ids: bool)
    requires
        nodes.len() <= usize::MAX,
    ensures
        forall|k: int|
            0 <= k < tree_rows(nodes, print_ids).len() ==> (#[trigger] tree_rows(
                nodes,
                print_ids,
            )[k]).index < nodes.len(),
        forall|k: int|
            0 <= k < tree_rows(nodes, print_ids).len() && !is_root(
                nodes,
                (#[trigger] tree_rows(nodes, print_ids)[k]).index as int,
            ) ==> exists|j: int|
                0 <= j < k && nodes[tree_rows(nodes, print_ids)[k].index as int].parent == Some(
                    nodes[(#[trigger] tree_rows(nodes, print_ids)[j]).index as int].id,
                ),
{
    let n = nodes.len();
    let rows = tree_rows(nodes, print_ids);
    let order = row_order(rows);
    let roots = root_order(nodes);
    lemma_pick(n, pinned_roots(nodes));
    lemma_pick(n, plain_roots(nodes));
    assert forall|m: int| 0 <= m < roots.len() implies (#[trigger] roots[m]) < n && is_root(
        nodes,
        roots[m] as int,
    ) by {
        let pinned = pick(n, pinned_roots(nodes));
        let plain = pick(n, plain_roots(nodes));
        if m < pinned.len() {
            assert(roots[m] == pinned[m]);
            assert(pinned_roots(nodes)(pinned[m] as int));
        } else {
            assert(roots[m] == plain[m - pinned.len()]);
            assert(plain_roots(nodes)(plain[m - pinned.len()] as int));
        }
    }
    lemma_group_order(nodes, roots, 0, Seq::empty(), print_ids, n);
    lemma_group_parents(nodes, roots, 0, n);
    assert forall|k: int| 0 <= k < rows.len() implies (#[trigger] rows[k]).index < n by {
        assert(order[k] == rows[k].index);
    }
    assert forall|k: int|
        0 <= k < rows.len() && !is_root(nodes, (#[trigger] rows[k]).index as int) implies exists|
        j: int,
    |
        0 <= j < k && nodes[rows[k].index as int].parent == Some(
            nodes[(#[trigger] rows[j]).index as int].id,
        ) by {
        assert(order[k] == rows[k].index);
        if parent_above(nodes, order, k) {
            let j = choose|j: int|
                0 <= j < k && nodes[order[k]].parent == Some(nodes[#[trigger] order[j]].id);
            assert(order[j] == rows[j].index);
        } else {
            assert(in_group(roots, 0, order[k]));
            let m = choose|m: int| 0 <= m < roots.len() && (#[trigger] roots[m]) as int == order[k];
            assert(is_root(nodes, roots[m] as int));
        }
    }
}


/// More than `n` numbers below `n` are not all different.
proof fn lemma_pigeonhole(s: Seq<int>, n: nat)
    requires
        s.len() > n,
        forall|k: int| 0 <= k < s.len() ==> 0 <= #[trigger] s[k] < n,
    ensures
        exists|a: int, b: int| 0 <= a < b < s.len() && s[a] == s[b],
{
    if s.no_duplicates() {
        s.unique_seq_to_set();
        vstd::set_lib::lemma_int_range(0, n as int);
        assert(s.to_set().subset_of(vstd::set_lib::set_int_range(0, n as int))) by {
            assert forall|x: int| s.to_set().contains(x) implies vstd::set_lib::set_int_range(
                0,
                n as int,
            ).contains(x) by {
                let k = choose|k: int| 0 <= k < s.len() && s[k] == x;
                assert(0 <= s[k] < n);
            }
        }
        vstd::set_lib::lemma_len_subset(s.to_set(), vstd::set_lib::set_int_range(0, n as int));
    } else {
        let (i, j) = choose|i: int, j: int|
            0 <= i < s.len() && 0 <= j < s.len() && i != j && s[i] == s[j];
        if i < j {
            assert(0 <= i < j < s.len() && s[i] == s[j]);
        } else {
            assert(0 <= j < i < s.len() && s[j] == s[i]);
        }
    }
}

/// A node from which no root is reached in `steps` links has ancestors
/// all the way up to `steps + 1` links above it.
proof fn lemma_long_chain(nodes: Seq<NodeView>, i: int, steps: nat, k: nat)
    requires
        0 <= i < nodes.len(),
        !within(nodes, i, steps),
        k <= steps + 1,
    ensures
        ancestor(nodes, i, k) is Some,
        0 <= ancestor(nodes, i, k)->0 < nodes.len(),
        k <= steps ==> !within(nodes, ancestor(nodes, i, k)->0, (steps - k) as nat),
    decreases k,
{
    if k > 0 {
        lemma_long_chain(nodes, i, steps, (k - 1) as nat);
        let a = ancestor(nodes, i, (k - 1) as nat)->0;
        assert(!within(nodes, a, (steps - (k - 1)) as nat));
        lemma_parent_index(nodes, a);
    }
}

/// The ancestors of an ancestor are ancestors.
proof fn lemma_ancestor_of_ancestor(nodes: Seq<NodeView>, i: int, a: nat, m: nat)
    requires
        ancestor(nodes, i, a) is Some,
    ensures
        ancestor(nodes, i, a + m) == ancestor(nodes, ancestor(nodes, i, a)->0, m),
    decreases m,
{
    if m > 0 {
        lemma_ancestor_of_ancestor(nodes, i, a, (m - 1) as nat);
        assert(a + m - 1 == a + (m - 1) as nat);
    }
}

/// Nodes with distinct ids of which none is its own ancestor form a
/// forest: among `n` nodes, a chain of parent links that met no root after
/// `n - 1` links would pass one node twice.
pub proof fn lemma_acyclic_nodes_form_a_forest(nodes: Seq<NodeView>)
    requires
        nodes.len() <= usize::MAX,
        distinct_ids(nodes),
        acyclic(nodes),
    ensures
        is_forest(nodes),
{
    let n = nodes.len();
    assert forall|i: int| 0 <= i < n implies #[trigger] within(nodes, i, (n - 1) as nat) by {
        if !within(nodes, i, (n - 1) as nat) {
            let steps = (n - 1) as nat;
            let chain = Seq::new(n + 1, |k: int| ancestor(nodes, i, k as nat)->0);
            assert forall|k: int| 0 <= k < chain.len() implies 0 <= #[trigger] chain[k] < n by {
                lemma_long_chain(nodes, i, steps, k as nat);
            }
            lemma_pigeonhole(chain, n);
            let (a, b) = choose|a: int, b: int| 0 <= a < b < chain.len() && chain[a] == chain[b];
            lemma_long_chain(nodes, i, steps, a as nat);
            lemma_long_chain(nodes, i, steps, b as nat);
            lemma_ancestor_of_ancestor(nodes, i, a as nat, (b - a) as nat);
            let j = chain[a];
            assert(ancestor(nodes, j, (b - a) as nat) == Some(j));
        }
    }
}

} // verus!
