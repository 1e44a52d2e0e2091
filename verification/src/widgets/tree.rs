//! Flattens a forest given as a flat list of `{id, parent, label}` nodes
//! into the rows of an ASCII tree.
//!
//! The rows come out depth first, parents before children. Each row starts
//! with box-drawing characters that show where the node hangs, optionally
//! followed by `#` and the node's id; the prefixes are padded to a common
//! width so that the labels line up in one column.

use vstd::prelude::*;
use vstd::string::*;
use crate::text::{decimal, pad_to, padded, push_decimal};

verus! {

/// What the formatter needs to know of a node.
pub trait TreeWidgetNode {
    spec fn spec_id(&self) -> usize;

    spec fn spec_parent_id(&self) -> Option<usize>;

    spec fn spec_label(&self) -> Seq<char>;

    fn id(&self) -> (id: usize)
        ensures
            id == self.spec_id(),
    ;

    fn parent_id(&self) -> (parent: Option<usize>)
        ensures
            parent == self.spec_parent_id(),
    ;

    fn label(&self) -> (label: String)
        ensures
            label@ == self.spec_label(),
    ;
}

/// A node as the specification sees it.
pub struct NodeView {
    pub id: usize,
    pub parent: Option<usize>,
    pub label: Seq<char>,
}

pub open spec fn node_view<T: TreeWidgetNode>(item: T) -> NodeView {
    NodeView { id: item.spec_id(), parent: item.spec_parent_id(), label: item.spec_label() }
}

pub open spec fn node_views<T: TreeWidgetNode>(items: Seq<T>) -> Seq<NodeView> {
    Seq::new(items.len(), |i: int| node_view(items[i]))
}

/// The indices below `n` that satisfy `keep`, in increasing order.
pub open spec fn pick(n: nat, keep: spec_fn(int) -> bool) -> Seq<usize>
    decreases n,
{
    if n == 0 {
        Seq::empty()
    } else {
        let rest = pick((n - 1) as nat, keep);
        if keep(n - 1) {
            rest.push((n - 1) as usize)
        } else {
            rest
        }
    }
}

/// Some node carries the id `id`.
pub open spec fn has_id(nodes: Seq<NodeView>, id: usize) -> bool {
    exists|i: int| 0 <= i < nodes.len() && (#[trigger] nodes[i]).id == id
}

/// Node `i` hangs under no node of the list: it names no parent, or a
/// parent that is not there.
pub open spec fn is_root(nodes: Seq<NodeView>, i: int) -> bool {
    match nodes[i].parent {
        None => true,
        Some(p) => !has_id(nodes, p),
    }
}

/// The label that moves a root in front of the other roots.
pub open spec fn pinned_label() -> Seq<char> {
    seq!['u', 's', 'e', 'r']
}

/// Node `i` is a root that goes before the ordinary roots.
pub open spec fn is_pinned(nodes: Seq<NodeView>, i: int) -> bool {
    is_root(nodes, i) && nodes[i].label == pinned_label()
}

pub open spec fn pinned_roots(nodes: Seq<NodeView>) -> spec_fn(int) -> bool {
    |i: int| is_pinned(nodes, i)
}

pub open spec fn plain_roots(nodes: Seq<NodeView>) -> spec_fn(int) -> bool {
    |i: int| is_root(nodes, i) && !is_pinned(nodes, i)
}

pub open spec fn child_of(nodes: Seq<NodeView>, id: usize) -> spec_fn(int) -> bool {
    |i: int| nodes[i].parent == Some(id)
}

/// The roots in the order in which their trees are printed: the pinned
/// ones first, then the others, each kind in input order.
pub open spec fn root_order(nodes: Seq<NodeView>) -> Seq<usize> {
    pick(nodes.len(), pinned_roots(nodes)) + pick(nodes.len(), plain_roots(nodes))
}

/// The nodes that name `id` as their parent, in input order.
pub open spec fn children_of(nodes: Seq<NodeView>, id: usize) -> Seq<usize> {
    pick(nodes.len(), child_of(nodes, id))
}

/// One line of the flattened tree before alignment: the drawn prefix and
/// the index of the node it stands for.
pub struct Row {
    pub prefix: Seq<char>,
    pub index: usize,
}

/// The connector drawn in front of a node.
pub open spec fn branch(last: bool) -> Seq<char> {
    if last {
        seq!['└', '─']
    } else {
        seq!['├', '─']
    }
}

/// What a node adds to the indent of the rows below it.
pub open spec fn continuation(last: bool) -> Seq<char> {
    if last {
        seq![' ', ' ']
    } else {
        seq!['│', ' ']
    }
}

/// `#` and the id in decimal, or nothing when ids are not printed.
pub open spec fn id_tag(id: usize, print_ids: bool) -> Seq<char> {
    if print_ids {
        seq!['#'] + decimal(id as nat)
    } else {
        Seq::empty()
    }
}

/// The rows of node `i` and of everything below it, down to `fuel` levels.
pub open spec fn subtree_rows(
    nodes: Seq<NodeView>,
    i: usize,
    indent: Seq<char>,
    last: bool,
    print_ids: bool,
    fuel: nat,
) -> Seq<Row>
    decreases fuel, 0nat, 0nat,
{
    if fuel == 0 {
        Seq::empty()
    } else {
        seq![Row { prefix: indent + branch(last) + id_tag(nodes[i as int].id, print_ids), index: i }]
            + group_rows(
            nodes,
            children_of(nodes, nodes[i as int].id),
            0,
            indent + continuation(last),
            print_ids,
            (fuel - 1) as nat,
        )
    }
}

/// The rows of the siblings `group[from..]` and of their subtrees. Only the
/// last sibling of the whole group is drawn as last.
pub open spec fn group_rows(
    nodes: Seq<NodeView>,
    group: Seq<usize>,
    from: nat,
    indent: Seq<char>,
    print_ids: bool,
    fuel: nat,
) -> Seq<Row>
    decreases fuel, 1nat, group.len() - from,
{
    if from >= group.len() {
        Seq::empty()
    } else {
        subtree_rows(nodes, group[from as int], indent, from + 1 == group.len(), print_ids, fuel)
            + group_rows(nodes, group, from + 1, indent, print_ids, fuel)
    }
}

/// The rows of the whole forest. No chain of parents in a forest of `n`
/// nodes is longer than `n`, which bounds the depth that is followed.
pub open spec fn tree_rows(nodes: Seq<NodeView>, print_ids: bool) -> Seq<Row> {
    group_rows(nodes, root_order(nodes), 0, Seq::empty(), print_ids, nodes.len())
}

/// Length of the longest prefix among `rows`.
pub open spec fn column_width(rows: Seq<Row>) -> nat
    decreases rows.len(),
{
    if rows.len() == 0 {
        0
    } else {
        let rest = column_width(rows.drop_last());
        if rows.last().prefix.len() > rest {
            rows.last().prefix.len()
        } else {
            rest
        }
    }
}

/// The printed line of `row`: its prefix padded to `width`, a space, and
/// the node's label.
pub open spec fn row_text(nodes: Seq<NodeView>, row: Row, width: nat) -> Seq<char> {
    padded(row.prefix, width) + seq![' '] + nodes[row.index as int].label
}


/// The nodes grouped by parent: the roots in printing order and, for each
/// node, the list of its children.
pub struct NodeGroups {
    pub roots: Vec<usize>,
    pub children: Vec<Vec<usize>>,
}

impl NodeGroups {
    /// `self` is the grouping of `nodes`.
    pub open spec fn groups(self, nodes: Seq<NodeView>) -> bool {
        &&& self.roots@ == root_order(nodes)
        &&& self.children@.len() == nodes.len()
        &&& forall|i: int|
            0 <= i < nodes.len() ==> (#[trigger] self.children@[i])@ == children_of(
                nodes,
                nodes[i].id,
            )
    }
}

/// Every index that `pick` returns is below its bound.
pub proof fn lemma_pick_bounded(n: nat, keep: spec_fn(int) -> bool)
    requires
        n <= usize::MAX,
    ensures
        forall|k: int| 0 <= k < pick(n, keep).len() ==> (#[trigger] pick(n, keep)[k]) < n,
    decreases n,
{
    if n > 0 {
        lemma_pick_bounded((n - 1) as nat, keep);
        let rest = pick((n - 1) as nat, keep);
        assert forall|k: int| 0 <= k < pick(n, keep).len() implies (#[trigger] pick(n, keep)[k])
            < n by {
            if k < rest.len() {
                assert(pick(n, keep)[k] == rest[k]);
            }
        }
    }
}

fn contains_id<T: TreeWidgetNode>(items: &Vec<T>, id: usize) -> (found: bool)
    ensures
        found == has_id(node_views(items@), id),
{
    let ghost nodes = node_views(items@);
    let mut i: usize = 0;
    while i < items.len()
        invariant
            i <= items.len(),
            nodes == node_views(items@),
            forall|j: int| 0 <= j < i ==> (#[trigger] nodes[j]).id != id,
        decreases items.len() - i,
    {
        if items[i].id() == id {
            assert(nodes[i as int].id == id);
            return true;
        }
        i = i + 1;
    }
    false
}

fn node_is_root<T: TreeWidgetNode>(items: &Vec<T>, i: usize) -> (root: bool)
    requires
        i < items.len(),
    ensures
        root == is_root(node_views(items@), i as int),
{
    match items[i].parent_id() {
        None => true,
        Some(p) => !contains_id(items, p),
    }
}

fn node_is_pinned<T: TreeWidgetNode>(items: &Vec<T>, i: usize) -> (pinned: bool)
    requires
        i < items.len(),
    ensures
        pinned == is_pinned(node_views(items@), i as int),
{
    proof {
        reveal_strlit("user");
    }
    let pinned_name = "user".to_owned();
    assert(pinned_name@ =~= pinned_label());
    node_is_root(items, i) && items[i].label() == pinned_name
}

fn child_indices<T: TreeWidgetNode>(items: &Vec<T>, id: usize) -> (found: Vec<usize>)
    ensures
        found@ == children_of(node_views(items@), id),
{
    let ghost nodes = node_views(items@);
    let mut found: Vec<usize> = Vec::new();
    let mut i: usize = 0;
    while i < items.len()
        invariant
            i <= items.len(),
            nodes == node_views(items@),
            found@ == pick(i as nat, child_of(nodes, id)),
        decreases items.len() - i,
    {
        if items[i].parent_id() == Some(id) {
            found.push(i);
        }
        i = i + 1;
    }
    found
}

fn root_indices<T: TreeWidgetNode>(items: &Vec<T>) -> (found: Vec<usize>)
    ensures
        found@ == root_order(node_views(items@)),
{
    let ghost nodes = node_views(items@);
    let mut found: Vec<usize> = Vec::new();
    let mut i: usize = 0;
    while i < items.len()
        invariant
            i <= items.len(),
            nodes == node_views(items@),
            found@ == pick(i as nat, pinned_roots(nodes)),
        decreases items.len() - i,
    {
        if node_is_pinned(items, i) {
            found.push(i);
        }
        i = i + 1;
    }
    let ghost pinned = found@;
    i = 0;
    while i < items.len()
        invariant
            i <= items.len(),
            nodes == node_views(items@),
            pinned == pick(nodes.len(), pinned_roots(nodes)),
            found@ == pinned + pick(i as nat, plain_roots(nodes)),
        decreases items.len() - i,
    {
        if node_is_root(items, i) && !node_is_pinned(items, i) {
            found.push(i);
        }
        i = i + 1;
    }
    found
}

/// Groups the nodes by parent: the roots, and the children of every node.
pub fn make_tree<T: TreeWidgetNode>(items: &Vec<T>) -> (tree: NodeGroups)
    ensures
        tree.groups(node_views(items@)),
{
    let ghost nodes = node_views(items@);
    let roots = root_indices(items);
    let mut children: Vec<Vec<usize>> = Vec::new();
    let mut i: usize = 0;
    while i < items.len()
        invariant
            i <= items.len(),
            nodes == node_views(items@),
            children@.len() == i,
            forall|j: int|
                0 <= j < i ==> (#[trigger] children@[j])@ == children_of(nodes, nodes[j].id),
        decreases items.len() - i,
    {
        let found = child_indices(items, items[i].id());
        children.push(found);
        i = i + 1;
    }
    NodeGroups { roots, children }
}


/// A row as it is held while the tree is walked: the prefix and the index
/// of the node.
pub open spec fn row_view(entry: (String, usize)) -> Row {
    Row { prefix: entry.0@, index: entry.1 }
}

pub open spec fn rows_view(entries: Seq<(String, usize)>) -> Seq<Row> {
    Seq::new(entries.len(), |k: int| row_view(entries[k]))
}

/// Without fuel no row is produced.
proof fn lemma_no_fuel(
    nodes: Seq<NodeView>,
    group: Seq<usize>,
    from: nat,
    indent: Seq<char>,
    print_ids: bool,
)
    ensures
        group_rows(nodes, group, from, indent, print_ids, 0) == Seq::<Row>::empty(),
    decreases group.len() - from,
{
    if from < group.len() {
        lemma_no_fuel(nodes, group, from + 1, indent, print_ids);
        assert(subtree_rows(nodes, group[from as int], indent, from + 1 == group.len(), print_ids, 0)
            =~= Seq::<Row>::empty());
        assert(group_rows(nodes, group, from, indent, print_ids, 0) =~= Seq::<Row>::empty());
    }
}

/// Appends to `out` the rows of the siblings in `group` and of their
/// subtrees, `fuel` levels deep.
fn list_tree_nodes<T: TreeWidgetNode>(
    items: &Vec<T>,
    tree: &NodeGroups,
    group: &Vec<usize>,
    indent: &String,
    print_ids: bool,
    fuel: usize,
    out: &mut Vec<(String, usize)>,
)
    requires
        tree.groups(node_views(items@)),
        forall|k: int| 0 <= k < group@.len() ==> (#[trigger] group@[k]) < items@.len(),
        forall|k: int| 0 <= k < old(out)@.len() ==> (#[trigger] old(out)@[k]).1 < items@.len(),
    ensures
        rows_view(final(out)@) == rows_view(old(out)@) + group_rows(
            node_views(items@),
            group@,
            0,
            indent@,
            print_ids,
            fuel as nat,
        ),
        forall|k: int| 0 <= k < final(out)@.len() ==> (#[trigger] final(out)@[k]).1 < items@.len(),
    decreases fuel,
{
    let ghost nodes = node_views(items@);
    let ghost before = rows_view(old(out)@);
    let ghost all = group_rows(nodes, group@, 0, indent@, print_ids, fuel as nat);
    if fuel == 0 {
        proof {
            lemma_no_fuel(nodes, group@, 0, indent@, print_ids);
            assert(rows_view(out@) =~= before + all);
        }
        return ;
    }
    let mut k: usize = 0;
    while k < group.len()
        invariant
            k <= group.len(),
            fuel > 0,
            nodes == node_views(items@),
            all == group_rows(nodes, group@, 0, indent@, print_ids, fuel as nat),
            tree.groups(nodes),
            forall|j: int| 0 <= j < group@.len() ==> (#[trigger] group@[j]) < items@.len(),
            forall|j: int| 0 <= j < out@.len() ==> (#[trigger] out@[j]).1 < items@.len(),
            rows_view(out@) + group_rows(nodes, group@, k as nat, indent@, print_ids, fuel as nat)
                == before + all,
        decreases group.len() - k,
    {
        let i = group[k];
        let last = k + 1 == group.len();
        let ghost so_far = rows_view(out@);

        let mut prefix = indent.clone();
        let mut below = indent.clone();
        proof {
            reveal_strlit("└─");
            reveal_strlit("├─");
            reveal_strlit("  ");
            reveal_strlit("│ ");
            reveal_strlit("#");
        }
        if last {
            prefix.append("└─");
            below.append("  ");
        } else {
            prefix.append("├─");
            below.append("│ ");
        }
        assert(prefix@ =~= indent@ + branch(last));
        assert(below@ =~= indent@ + continuation(last));
        if print_ids {
            prefix.append("#");
            push_decimal(&mut prefix, items[i].id() as u64);
        }
        assert(prefix@ =~= indent@ + branch(last) + id_tag(nodes[i as int].id, print_ids));
        let ghost row = Row { prefix: prefix@, index: i };
        out.push((prefix, i));
        assert(rows_view(out@) =~= so_far.push(row));

        proof {
            assert(nodes.len() == items.len());
            lemma_pick_bounded(nodes.len(), child_of(nodes, nodes[i as int].id));
        }
        list_tree_nodes(items, tree, &tree.children[i], &below, print_ids, fuel - 1, out);

        proof {
            let below_rows = group_rows(
                nodes,
                children_of(nodes, nodes[i as int].id),
                0,
                below@,
                print_ids,
                (fuel - 1) as nat,
            );
            let sub = subtree_rows(nodes, i, indent@, last, print_ids, fuel as nat);
            let rest = group_rows(nodes, group@, (k + 1) as nat, indent@, print_ids, fuel as nat);
            assert(sub =~= seq![row] + below_rows);
            assert(rows_view(out@) =~= so_far + sub);
            assert(group_rows(nodes, group@, k as nat, indent@, print_ids, fuel as nat) == sub
                + rest);
            assert((so_far + sub) + rest =~= so_far + (sub + rest));
        }
        k = k + 1;
    }
    proof {
        assert(group_rows(nodes, group@, k as nat, indent@, print_ids, fuel as nat)
            =~= Seq::<Row>::empty());
        assert(rows_view(out@) =~= before + all);
    }
}

fn widest_prefix(rows: &Vec<(String, usize)>) -> (width: usize)
    ensures
        width == column_width(rows_view(rows@)),
{
    let mut width: usize = 0;
    let mut k: usize = 0;
    while k < rows.len()
        invariant
            k <= rows.len(),
            width == column_width(rows_view(rows@).take(k as int)),
        decreases rows.len() - k,
    {
        let len = rows[k].0.as_str().unicode_len();
        proof {
            let upto = rows_view(rows@).take(k + 1);
            assert(upto.drop_last() =~= rows_view(rows@).take(k as int));
            assert(upto.last().prefix == rows@[k as int].0@);
        }
        if len > width {
            width = len;
        }
        k = k + 1;
    }
    assert(rows_view(rows@).take(k as int) =~= rows_view(rows@));
    width
}

/// Formats `items` as a tree: one entry per printed row, holding the line
/// to print and a copy of the node it shows.
///
/// Roots are the nodes without a parent in the list; a root labelled
/// `user` is printed before the others. With `print_ids` every connector
/// is followed by `#` and the node's id.
pub fn tree_list_widget<T: Clone + TreeWidgetNode>(items: Vec<T>, print_ids: bool) -> (list: Vec<
    (String, T),
>)
    ensures
        list@.len() == tree_rows(node_views(items@), print_ids).len(),
        forall|k: int|
            0 <= k < list@.len() ==> (#[trigger] tree_rows(node_views(items@), print_ids)[k]).index
                < items@.len(),
        forall|k: int|
            0 <= k < list@.len() ==> {
                let rows = tree_rows(node_views(items@), print_ids);
                &&& (#[trigger] list@[k]).0@ == row_text(
                    node_views(items@),
                    rows[k],
                    column_width(rows),
                )
                &&& cloned(items@[rows[k].index as int], list@[k].1)
            },
{
    let ghost nodes = node_views(items@);
    let ghost rows = tree_rows(nodes, print_ids);
    let tree = make_tree(&items);
    let mut flat: Vec<(String, usize)> = Vec::new();
    let indent = String::new();
    proof {
        assert(nodes.len() == items.len());
        lemma_pick_bounded(nodes.len(), pinned_roots(nodes));
        lemma_pick_bounded(nodes.len(), plain_roots(nodes));
    }
    list_tree_nodes(&items, &tree, &tree.roots, &indent, print_ids, items.len(), &mut flat);
    assert(rows_view(flat@) =~= rows);
    let width = widest_prefix(&flat);

    let mut list: Vec<(String, T)> = Vec::new();
    let mut k: usize = 0;
    while k < flat.len()
        invariant
            k <= flat.len(),
            nodes == node_views(items@),
            rows == tree_rows(nodes, print_ids),
            rows_view(flat@) == rows,
            width == column_width(rows),
            forall|j: int| 0 <= j < flat@.len() ==> (#[trigger] flat@[j]).1 < items@.len(),
            list@.len() == k,
            forall|j: int|
                0 <= j < k ==> {
                    &&& rows[j].index < items@.len()
                    &&& (#[trigger] list@[j]).0@ == row_text(nodes, rows[j], width as nat)
                    &&& cloned(items@[rows[j].index as int], list@[j].1)
                },
        decreases flat.len() - k,
    {
        let i = flat[k].1;
        assert(rows[k as int] == row_view(flat@[k as int]));
        let mut text = flat[k].0.clone();
        let len = text.as_str().unicode_len();
        pad_to(&mut text, len, width);
        proof {
            reveal_strlit(" ");
        }
        text.append(" ");
        let label = items[i].label();
        text.append(label.as_str());
        assert(text@ =~= row_text(nodes, rows[k as int], width as nat));
        let item = items[i].clone();
        list.push((text, item));
        k = k + 1;
    }
    assert forall|j: int| 0 <= j < list@.len() implies (#[trigger] rows[j]).index < items@.len() by {
        assert(rows[j] == row_view(flat@[j]));
    }
    list
}

} // verus!
