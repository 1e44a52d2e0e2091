use panopticon_tui::akka::model::ActorTreeNode;
use panopticon_tui::akka_actor_tree::model::ActorNode;
use panopticon_tui::ui::app::{AkkaActorTreeTab, ListState};
use panopticon_tui::ui::formatter::printable_tree;
use panopticon_tui::utils::tree::{ArenaTree, Node};
use panopticon_tui::widgets::tree::{make_tree, tree_list_widget, TreeWidgetNode};
use panopticon_tui::zio::model::{Fiber, FiberStatus};

fn fiber(id: usize, parent_id: Option<usize>, status: FiberStatus) -> Fiber {
    Fiber { id, parent_id, status, dump: id.to_string() }
}

fn actor(id: usize, parent: Option<usize>, name: &str) -> ActorTreeNode {
    ActorTreeNode { name: name.to_owned(), parent, id }
}

fn lines<T>(rows: &Vec<(String, T)>) -> Vec<String> {
    rows.iter().map(|r| r.0.clone()).collect()
}

fn ids(rows: &Vec<(String, Fiber)>) -> Vec<usize> {
    rows.iter().map(|r| r.1.id).collect()
}

#[test]
fn fibers_are_drawn_as_a_forest() {
    let rows = tree_list_widget(
        vec![
            fiber(1, None, FiberStatus::Running),
            fiber(2, Some(1), FiberStatus::Suspended),
            fiber(4, None, FiberStatus::Done),
        ],
        true,
    );
    assert_eq!(lines(&rows), vec!["├─#1   Running", "│ └─#2 Suspended", "└─#4   Done"]);
    assert_eq!(ids(&rows), vec![1, 2, 4]);
    assert_eq!(rows[1].1, fiber(2, Some(1), FiberStatus::Suspended));
}

#[test]
fn deep_and_wide_forests_keep_their_shape() {
    let s = FiberStatus::Suspended;
    let r = FiberStatus::Running;
    let rows = printable_tree(vec![
        fiber(0, None, s),
        fiber(1, Some(0), r),
        fiber(2, Some(1), s),
        fiber(3, Some(1), r),
        fiber(4, Some(1), s),
        fiber(5, Some(4), r),
        fiber(6, None, s),
        fiber(7, None, r),
    ]);
    assert_eq!(
        lines(&rows),
        vec![
            "├─#0       Suspended",
            "│ └─#1     Running",
            "│   ├─#2   Suspended",
            "│   ├─#3   Running",
            "│   └─#4   Suspended",
            "│     └─#5 Running",
            "├─#6       Suspended",
            "└─#7       Running",
        ]
    );
    assert_eq!(ids(&rows), vec![0, 1, 2, 3, 4, 5, 6, 7]);
}

#[test]
fn children_follow_their_parent_whatever_the_input_order() {
    let rows = tree_list_widget(
        vec![
            fiber(12, Some(3), FiberStatus::Done),
            fiber(3, Some(100), FiberStatus::Running),
            fiber(100, None, FiberStatus::Finishing),
            fiber(7, Some(100), FiberStatus::Done),
        ],
        true,
    );
    assert_eq!(ids(&rows), vec![100, 3, 12, 7]);
    assert_eq!(
        lines(&rows),
        vec!["└─#100    Finishing", "  ├─#3    Running", "  │ └─#12 Done", "  └─#7    Done"]
    );
}

#[test]
fn orphans_are_roots() {
    let rows = tree_list_widget(
        vec![fiber(5, Some(99), FiberStatus::Running), fiber(6, Some(5), FiberStatus::Done)],
        true,
    );
    assert_eq!(lines(&rows), vec!["└─#5   Running", "  └─#6 Done"]);
}

#[test]
fn user_root_comes_first_and_ids_can_be_left_out() {
    let rows = tree_list_widget(
        vec![
            actor(1, None, "system"),
            actor(2, Some(1), "log"),
            actor(3, None, "user"),
            actor(4, Some(3), "worker"),
            actor(5, Some(1), "user"),
        ],
        false,
    );
    assert_eq!(
        lines(&rows),
        vec!["├─   user", "│ └─ worker", "└─   system", "  ├─ log", "  └─ user"]
    );
    assert_eq!(rows[0].1, actor(3, None, "user"));
}

#[test]
fn empty_and_cyclic_inputs_are_harmless() {
    assert_eq!(tree_list_widget(Vec::<Fiber>::new(), true), vec![]);
    let rows = tree_list_widget(
        vec![
            fiber(1, Some(2), FiberStatus::Running),
            fiber(2, Some(1), FiberStatus::Running),
            fiber(3, None, FiberStatus::Done),
            fiber(4, Some(4), FiberStatus::Done),
        ],
        true,
    );
    assert_eq!(lines(&rows), vec!["└─#3 Done"]);
    let twice = tree_list_widget(
        vec![fiber(1, None, FiberStatus::Running), fiber(1, Some(1), FiberStatus::Done)],
        true,
    );
    assert_eq!(lines(&twice), vec!["└─#1   Running", "  └─#1 Done"]);
}

#[test]
fn formatting_is_repeatable() {
    let nodes = vec![
        fiber(9, Some(8), FiberStatus::Running),
        fiber(8, None, FiberStatus::Suspended),
        fiber(10, Some(8), FiberStatus::Done),
    ];
    let first = tree_list_widget(nodes.clone(), true);
    let second = tree_list_widget(nodes.clone(), true);
    assert_eq!(first, second);
    assert_eq!(first.len(), nodes.len());
}

#[test]
fn nodes_are_grouped_by_parent() {
    let nodes = vec![
        fiber(1, None, FiberStatus::Running),
        fiber(2, Some(1), FiberStatus::Running),
        fiber(3, Some(1), FiberStatus::Running),
        fiber(4, Some(9), FiberStatus::Running),
    ];
    let groups = make_tree(&nodes);
    assert_eq!(groups.roots, vec![0, 3]);
    assert_eq!(groups.children, vec![vec![1, 2], vec![], vec![], vec![]]);
    assert_eq!(nodes[1].id(), 2);
    assert_eq!(nodes[1].parent_id(), Some(1));
    assert_eq!(nodes[1].label(), "Running");
    assert_eq!(FiberStatus::Finishing.to_string(), "Finishing");
    assert_eq!(actor(1, Some(4), "a").label(), "a");
}

#[test]
fn plain_list_cursor_stops_at_the_ends() {
    let mut list = ListState::new(vec![1, 2, 3]);
    list.select_previous();
    assert_eq!(list.selected, 0);
    list.select_next();
    list.select_next();
    list.select_next();
    assert_eq!(list.selected, 2);
    list.select_previous();
    assert_eq!(list.selected, 1);
    let mut empty: ListState<u8> = ListState::new(vec![]);
    empty.select_next();
    assert_eq!(empty.selected, 0);
}

#[test]
fn actor_tree_tab_lists_actors_and_counts() {
    let mut tab = AkkaActorTreeTab::new();
    tab.update_actor_tree(vec![
        ActorNode { name: "user".to_owned(), parent: None, id: 1 },
        ActorNode { name: "a".to_owned(), parent: Some(1), id: 2 },
    ]);
    assert_eq!(tab.actors.items, vec!["└─   user", "  └─ a"]);
    tab.select_next_actor();
    tab.select_next_actor();
    assert_eq!(tab.actors.selected, 1);
    tab.select_prev_actor();
    assert_eq!(tab.actors.selected, 0);
    tab.select_next_actor();
    tab.update_actor_tree(vec![]);
    assert_eq!(tab.actors.selected, 0);
    for i in 0..30u64 {
        tab.append_actor_count(i);
    }
    assert_eq!(tab.actor_counts.len(), 25);
    assert_eq!(tab.actor_counts.front(), Some(&5));
    assert_eq!(tab.actor_counts.back(), Some(&29));
}

#[test]
fn arena_finds_a_value_or_adds_it() {
    let mut tree: ArenaTree<&str> = ArenaTree::new();
    assert_eq!(tree.node("a"), 0);
    assert_eq!(tree.node("b"), 1);
    assert_eq!(tree.node("a"), 0);
    assert_eq!(tree.node("c"), 2);
    assert_eq!(tree.arena.len(), 3);
    assert_eq!(tree.arena[1].val, "b");
    assert_eq!(tree.arena[1].idx, 1);
    assert_eq!(tree.arena[1].parent, None);
    assert!(tree.arena[1].children.is_empty());
    tree.arena[1].idx = 9;
    assert_eq!(tree.node("b"), 9);
    let single = Node::new(4, 'x');
    assert_eq!((single.idx, single.val, single.parent), (4, 'x', None));
}
