use std::collections::VecDeque;

use panopticon_tui::akka::model::{
    ActorSystemStatus, ActorTreeNode, AkkaSettings, DeadLettersMessage, DeadLettersSnapshot,
    DeadLettersWindow, DeadLettersWindowData, DroppedMessage, Timestamped,
};
use panopticon_tui::app::{
    all_checks, App, AppTabKind, CheckStatus, SlickTab, StatefulList, Tab, TabsState, ZMXTab,
};
use panopticon_tui::fetcher::{
    BackendCall, BackendReply, Dispatcher, Fetcher, FetcherRequest, FetcherResponse, Step,
};
use panopticon_tui::jmx::model::{
    HikariMetrics, JMXConnectionSettings, SlickConfig, SlickMetrics,
};
use panopticon_tui::zio::model::{Fiber, FiberCount, FiberStatus};
use panopticon_tui::zio::zmx_client::{StubZMXClient, ZMXClient};

fn three_fibers() -> Vec<Fiber> {
    vec![
        Fiber { id: 1, parent_id: None, status: FiberStatus::Running, dump: "1".to_owned() },
        Fiber { id: 2, parent_id: Some(1), status: FiberStatus::Suspended, dump: "2".to_owned() },
        Fiber { id: 4, parent_id: None, status: FiberStatus::Done, dump: "4".to_owned() },
    ]
}

fn jmx_settings() -> JMXConnectionSettings {
    JMXConnectionSettings {
        address: "localhost:9010".to_owned(),
        username: None,
        password: None,
        db_pool_name: "db".to_owned(),
    }
}

fn akka_settings() -> AkkaSettings {
    AkkaSettings {
        tree_address: "http://host/tree".to_owned(),
        status_address: "http://host/status".to_owned(),
        dead_letters_address: "http://host/dead".to_owned(),
        cluster_status_address: None,
        tree_timeout: 1000,
        status_timeout: 1600,
        dead_letters_window: 5000,
    }
}

fn full_app() -> App<'static> {
    App::new(
        "PANOPTICON-TUI",
        Some("localhost:6789".to_owned()),
        Some(jmx_settings()),
        Some(akka_settings()),
        false,
    )
}

#[test]
fn zmx_tab_dumps_fibers() {
    let mut tab = ZMXTab {
        fibers: StatefulList::with_items(vec!["Fiber #1".to_owned()]),
        selected_fiber_dump: ("".to_string(), 0),
        fiber_dump_all: vec![],
        scroll: 0,
        fiber_counts: VecDeque::new(),
    };

    tab.replace_fiber_dump(three_fibers());

    assert_eq!(tab.fiber_dump_all, vec!["1", "2", "4"]);
    assert_eq!(tab.fibers.items, vec!["├─#1   Running", "│ └─#2 Suspended", "└─#4   Done"]);
    assert_eq!(tab.fibers.selected, Some(0));
}

#[test]
fn app_zmx_tab_dumps_fibers() {
    let stub = StubZMXClient::new(Ok(three_fibers()));
    assert_eq!(stub.address(), "<stub>");
    let dispatcher = Dispatcher::start(Fetcher::new(Some(stub.address()), None, None, Ok(())));
    let mut app = App::new("t", Some(stub.address()), None, None, false);
    let request = app.on_enter().unwrap();
    assert_eq!(
        dispatcher.on_request(request),
        Step::Call(BackendCall::FiberDump { address: "<stub>".to_owned() })
    );
    app.on_response(dispatcher.on_reply(request, BackendReply::FiberDump(stub.dump_fibers())));

    let tab = app.zmx.as_ref().unwrap();
    assert_eq!(tab.fiber_dump_all, vec!["1", "2", "4"]);
    assert_eq!(tab.fibers.items, vec!["├─#1   Running", "│ └─#2 Suspended", "└─#4   Done"]);
    assert_eq!(tab.fibers.items.len(), 3);
    assert_eq!(tab.fibers.selected, Some(0));
    assert_eq!(tab.selected_fiber_dump, ("1".to_owned(), 1));
    assert!(!app.should_quit);
}

#[test]
fn tabs_follow_the_configured_backends() {
    let app = full_app();
    let kinds: Vec<AppTabKind> = app.tabs.tabs.iter().map(|t| t.kind).collect();
    assert_eq!(kinds, vec![AppTabKind::ZMX, AppTabKind::Slick, AppTabKind::Akka]);
    let titles: Vec<String> = app.tabs.titles().into_iter().cloned().collect();
    assert_eq!(titles, vec!["ZIO", "Slick", "Akka"]);

    let only_pool = App::new("t", None, Some(jmx_settings()), None, true);
    assert_eq!(only_pool.tabs.tabs.len(), 1);
    assert_eq!(only_pool.tabs.current().kind, AppTabKind::Slick);
    assert!(only_pool.zmx.is_none() && only_pool.akka.is_none() && only_pool.slick.is_some());
    assert!(only_pool.check_status.is_check_mode);
}

#[test]
fn tab_navigation_wraps_around() {
    let mut tabs = TabsState::new(vec![
        Tab { kind: 1u8, title: "a".to_owned() },
        Tab { kind: 2u8, title: "b".to_owned() },
        Tab { kind: 3u8, title: "c".to_owned() },
    ]);
    assert_eq!(tabs.current().kind, 1);
    tabs.previous();
    assert_eq!(tabs.index, 2);
    tabs.next();
    assert_eq!(tabs.index, 0);
    tabs.next();
    tabs.next();
    assert_eq!(tabs.current().title, "c");
}

#[test]
fn list_cursor_wraps_around() {
    let mut list = StatefulList::with_items(vec!['a', 'b', 'c']);
    assert_eq!(list.selected(), None);
    list.next();
    assert_eq!(list.selected(), Some(&'a'));
    list.previous();
    assert_eq!(list.selected(), Some(&'c'));
    list.next();
    assert_eq!(list.selected, Some(0));
    list.next();
    assert_eq!(list.selected, Some(1));

    let mut empty: StatefulList<u8> = StatefulList::with_items(vec![]);
    empty.next();
    empty.next();
    empty.previous();
    assert_eq!(empty.selected, Some(0));
    assert_eq!(empty.selected(), None);
}

#[test]
fn history_keeps_the_most_recent_samples() {
    let mut tab = SlickTab::new();
    for i in 0..26 {
        tab.append_slick_metrics(SlickMetrics { active_threads: i, queue_size: 0 });
    }
    assert_eq!(tab.slick_metrics.len(), 25);
    assert_eq!(tab.slick_metrics.front().unwrap().active_threads, 1);
    assert_eq!(tab.slick_metrics.back().unwrap().active_threads, 25);

    for i in 0..101 {
        tab.append_hikari_metrics(HikariMetrics { total: i, active: 0, idle: 0, waiting: 0 });
    }
    assert_eq!(tab.hikari_metrics.len(), 100);
    assert_eq!(tab.hikari_metrics.front().unwrap().total, 1);
    assert_eq!(tab.hikari_metrics.back().unwrap().total, 100);

    tab.replace_slick_config(SlickConfig { max_threads: 20, max_queue_size: 1000 });
    assert_eq!(tab.slick_config, SlickConfig { max_threads: 20, max_queue_size: 1000 });
}

#[test]
fn fiber_counts_are_recorded_by_status() {
    let mut tab = ZMXTab::new();
    tab.append_fiber_dump_for_counts(three_fibers());
    assert_eq!(
        tab.fiber_counts.back(),
        Some(&FiberCount { done: 1, finishing: 0, running: 1, suspended: 1 })
    );
    assert_eq!(tab.fiber_counts.back().unwrap().total(), 3);
    for _ in 0..100 {
        tab.append_fiber_dump_for_counts(vec![]);
    }
    assert_eq!(tab.fiber_counts.len(), 100);
    assert_eq!(tab.fiber_counts.front().unwrap().total(), 0);
}

#[test]
fn fiber_cursor_shows_the_dump_under_it() {
    let mut tab = ZMXTab::new();
    tab.select_next_fiber();
    assert_eq!(tab.fibers.selected, None);
    let mut fibers = three_fibers();
    fibers[1].dump = "a\nb\nc\n".to_owned();
    tab.replace_fiber_dump(fibers);
    tab.scroll_down();
    assert_eq!(tab.scroll, 1);
    tab.scroll_down();
    assert_eq!(tab.scroll, 1);
    tab.select_next_fiber();
    assert_eq!(tab.fibers.selected, Some(1));
    assert_eq!(tab.selected_fiber_dump, ("a\nb\nc\n".to_owned(), 3));
    assert_eq!(tab.scroll, 0);
    tab.scroll_up();
    assert_eq!(tab.scroll, 0);
    tab.select_prev_fiber();
    tab.select_prev_fiber();
    assert_eq!(tab.fibers.selected, Some(2));
    assert_eq!(tab.selected_fiber_dump.0, "4");
    assert_eq!(ZMXTab::prepare_dump("x\n\ny".to_owned()).1, 3);
    assert_eq!(ZMXTab::prepare_dump("".to_owned()).1, 0);
    assert_eq!(ZMXTab::prepare_dump("\n".to_owned()).1, 1);
}

#[test]
fn failed_dead_letters_poll_quits_with_its_message() {
    let mut app = full_app();
    app.on_response(FetcherResponse::DeadLetters(Err("no dead letters".to_owned())));
    assert!(app.should_quit);
    assert_eq!(app.exit_reason, Some("no dead letters".to_owned()));
}

#[test]
fn fatal_failure_quits_with_its_message() {
    let mut app = full_app();
    app.on_response(FetcherResponse::FatalFailure("no jmx".to_owned()));
    assert!(app.should_quit);
    assert_eq!(app.exit_reason, Some("no jmx".to_owned()));
}

#[test]
fn failed_pool_gauges_only_disable_them() {
    let mut app = full_app();
    app.on_response(FetcherResponse::HikariMetrics(Ok(HikariMetrics {
        total: 10,
        active: 2,
        idle: 8,
        waiting: 0,
    })));
    assert!(app.slick.as_ref().unwrap().has_hikari);
    assert!(app.on_tick().contains(&FetcherRequest::HikariMetrics));

    app.on_response(FetcherResponse::HikariMetrics(Err("no pool".to_owned())));
    assert!(!app.should_quit);
    assert_eq!(app.exit_reason, None);
    assert!(!app.slick.as_ref().unwrap().has_hikari);
    assert_eq!(app.slick.as_ref().unwrap().hikari_metrics.len(), 1);
    assert!(!app.on_tick().contains(&FetcherRequest::HikariMetrics));
}

#[test]
fn ticks_poll_every_configured_backend() {
    let app = full_app();
    assert_eq!(
        app.on_tick(),
        vec![
            FetcherRequest::RegularFiberDump,
            FetcherRequest::SlickMetrics,
            FetcherRequest::ActorSystemStatus,
            FetcherRequest::DeadLetters,
        ]
    );
    assert_eq!(
        app.initial_requests(),
        vec![
            FetcherRequest::SlickConfig,
            FetcherRequest::HikariMetrics,
            FetcherRequest::SlickMetrics
        ]
    );
    let only_fibers = App::new("t", Some("a".to_owned()), None, None, false);
    assert_eq!(only_fibers.on_tick(), vec![FetcherRequest::RegularFiberDump]);
    assert_eq!(only_fibers.initial_requests(), vec![]);
    assert_eq!(only_fibers.on_enter(), Some(FetcherRequest::FiberDump));

    let mut clustered = akka_settings();
    clustered.cluster_status_address = Some("http://host/cluster".to_owned());
    let with_cluster = App::new("t", None, None, Some(clustered), false);
    assert_eq!(
        with_cluster.on_tick(),
        vec![
            FetcherRequest::ActorSystemStatus,
            FetcherRequest::DeadLetters,
            FetcherRequest::ClusterStatus
        ]
    );
    assert_eq!(with_cluster.on_enter(), Some(FetcherRequest::ActorTree));
}

#[test]
fn keys_steer_the_tab_in_front() {
    let mut app = full_app();
    app.on_response(FetcherResponse::FiberDump(Ok(three_fibers())));
    app.on_down();
    assert_eq!(app.zmx.as_ref().unwrap().fibers.selected, Some(1));
    app.on_up();
    assert_eq!(app.zmx.as_ref().unwrap().fibers.selected, Some(0));
    app.on_page_down();
    assert_eq!(app.zmx.as_ref().unwrap().scroll, 1);
    app.on_page_up();
    assert_eq!(app.zmx.as_ref().unwrap().scroll, 0);

    app.on_right();
    assert_eq!(app.tabs.current().kind, AppTabKind::Slick);
    assert_eq!(app.on_enter(), None);
    app.on_down();
    app.on_page_down();
    app.on_key('d');
    assert_eq!(app.zmx.as_ref().unwrap().fibers.selected, Some(0));
    assert_eq!(app.akka.as_ref().unwrap().dead_letters_tabs.index, 0);

    app.on_right();
    assert_eq!(app.tabs.current().kind, AppTabKind::Akka);
    app.on_right();
    assert_eq!(app.tabs.current().kind, AppTabKind::ZMX);
    app.on_left();
    assert_eq!(app.tabs.current().kind, AppTabKind::Akka);

    app.on_key('x');
    assert!(!app.should_quit);
    app.on_key('q');
    assert!(app.should_quit);
    assert_eq!(app.exit_reason, None);
}

#[test]
fn actor_tab_takes_trees_status_and_dead_letters() {
    let mut app = App::new("t", None, None, Some(akka_settings()), false);
    app.on_response(FetcherResponse::ActorTree(Ok(vec![
        ActorTreeNode { name: "user".to_owned(), parent: None, id: 1 },
        ActorTreeNode { name: "worker".to_owned(), parent: Some(1), id: 2 },
        ActorTreeNode { name: "system".to_owned(), parent: None, id: 3 },
    ])));
    assert_eq!(
        app.akka.as_ref().unwrap().actors.items,
        vec!["├─   user", "│ └─ worker", "└─   system"]
    );
    app.on_page_down();
    app.on_page_down();
    assert_eq!(app.akka.as_ref().unwrap().actors.selected, Some(1));
    app.on_page_up();
    assert_eq!(app.akka.as_ref().unwrap().actors.selected, Some(0));

    for i in 0..26u64 {
        app.on_response(FetcherResponse::ActorSystemStatus(Ok(ActorSystemStatus {
            actor_count: i,
            uptime: 10,
            start_time: 5,
        })));
    }
    let tab = app.akka.as_ref().unwrap();
    assert_eq!(tab.actor_counts.len(), 25);
    assert_eq!(tab.actor_counts.front(), Some(&1));
    assert_eq!(tab.system_status.actor_count, 25);

    let window = DeadLettersWindow {
        within_millis: 5000,
        dead_letters: DeadLettersWindowData { count: 1, is_min_estimate: false },
        unhandled: DeadLettersWindowData { count: 0, is_min_estimate: false },
        dropped: DeadLettersWindowData { count: 7, is_min_estimate: true },
    };
    assert_eq!(window.max(), 7);
    assert_eq!(window.total(), 8);
    let snapshot = DeadLettersSnapshot {
        dead_letters: vec![Timestamped {
            value: DeadLettersMessage {
                message: "m".to_owned(),
                sender: "s".to_owned(),
                recipient: "r".to_owned(),
            },
            timestamp: 3000,
        }],
        unhandled: vec![],
        dropped: vec![Timestamped {
            value: DroppedMessage {
                message: "dm".to_owned(),
                sender: "ds".to_owned(),
                recipient: "dr".to_owned(),
                reason: "full".to_owned(),
            },
            timestamp: 9000,
        }],
    };
    app.on_response(FetcherResponse::DeadLetters(Ok((snapshot, window))));
    assert_eq!(app.akka.as_ref().unwrap().dead_letters_windows.len(), 1);
    assert_eq!(app.akka.as_ref().unwrap().dead_letters_log.items.len(), 0);

    app.on_key('a');
    let tab = app.akka.as_ref().unwrap();
    assert_eq!(tab.dead_letters_tabs.index, 2);
    assert_eq!(tab.dead_letters_log.items.len(), 1);
    assert_eq!(tab.dead_letters_log.items[0].reason, Some("full".to_owned()));
    assert_eq!(tab.dead_letters_log.items[0].timestamp, 9000);
    assert_eq!(tab.dead_letters_log.items[0].summary_at(69), "<1 min ago> dm");
    assert_eq!(tab.dead_letters_log.items[0].summary_at(12), "<3 sec ago> dm");
    assert_eq!(tab.dead_letters_log.items[0].summary_at(9), "<just now> dm");
    assert_eq!(tab.dead_letters_log.items[0].timestamp_seconds(), 9);
    assert!(tab.dead_letters_log.items[0].summary().ends_with("ago> dm"));

    app.on_key('d');
    app.on_down();
    let tab = app.akka.as_ref().unwrap();
    assert_eq!(tab.dead_letters_tabs.index, 0);
    assert_eq!(tab.dead_letters_log.selected().unwrap().message, "m");
    assert_eq!(tab.dead_letters_log.selected().unwrap().reason, None);

    app.on_response(FetcherResponse::ClusterStatus(Err("no cluster".to_owned())));
    assert!(!app.should_quit);
    assert!(!app.akka.as_ref().unwrap().has_cluster);
}

#[test]
fn self_check_needs_every_required_answer() {
    let mut status =
        CheckStatus { is_check_mode: true, checks_passed: vec![], ticks_passed: 0 };
    assert!(!status.is_success(&all_checks()));
    assert!(status.is_success(&vec![]));
    status.checks_passed = all_checks();
    status.checks_passed.reverse();
    assert!(status.is_success(&all_checks()));
    status.checks_passed.pop();
    assert!(!status.is_success(&all_checks()));
    assert_eq!(all_checks().len(), 8);
}
