//! The tree formatter with ids always shown.

use vstd::prelude::*;
use crate::widgets::tree::{column_width, node_views, row_text, tree_list_widget, tree_rows};

verus! {

pub use crate::widgets::tree::TreeWidgetNode;

/// Formats `items` as a tree whose rows show the ids of the nodes: one
/// entry per printed row, holding the line to print and a copy of the
/// node it shows.
pub fn printable_tree<T: Clone + TreeWidgetNode>(items: Vec<T>) -> (list: Vec<(String, T)>)
    ensures
        list@.len() == tree_rows(node_views(items@), true).len(),
        forall|k: int|
            0 <= k < list@.len() ==> (#[trigger] tree_rows(node_views(items@), true)[k]).index
                < items@.len(),
        forall|k: int|
            0 <= k < list@.len() ==> {
                let rows = tree_rows(node_views(items@), true);
                &&& (#[trigger] list@[k]).0@ == row_text(
                    node_views(items@),
                    rows[k],
                    column_width(rows),
                )
                &&& cloned(items@[rows[k].index as int], list@[k].1)
            },
{
    tree_list_widget(items, true)
}

} // verus!
