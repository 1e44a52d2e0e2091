use std::collections::VecDeque;

use panopticon_tui::history::record;
use panopticon_tui::text::{
    char_is_space, chars_of, find_char, find_pattern, matches_at, pad_to, parse_usize,
    push_decimal, same_text, slice_of, trimmed, trimmed_start,
};
use panopticon_tui::zio::dump_parser::{parse_fiber_dump, parse_fields};
use panopticon_tui::zio::model::{FiberCount, FiberStatus};
use panopticon_tui::zookeeper::model::{Mode, Word, ZAddr, ZNode};
use panopticon_tui::zookeeper::zookeeper_client::{
    drop_n_chars, grep, nc_command, node_status, parse_mode,
};

fn chars(s: &str) -> Vec<char> {
    s.chars().collect()
}

#[test]
fn numbers_are_written_and_read_in_decimal() {
    let mut s = "n=".to_owned();
    push_decimal(&mut s, 0);
    push_decimal(&mut s, 7);
    push_decimal(&mut s, 1230);
    push_decimal(&mut s, u64::MAX);
    assert_eq!(s, "n=07123018446744073709551615");
    assert_eq!(parse_usize(&chars("0")), Some(0));
    assert_eq!(parse_usize(&chars("0042")), Some(42));
    assert_eq!(parse_usize(&chars("18446744073709551615")), Some(usize::MAX));
    assert_eq!(parse_usize(&chars("18446744073709551616")), None);
    assert_eq!(parse_usize(&chars("99999999999999999999999")), None);
    assert_eq!(parse_usize(&chars("")), None);
    assert_eq!(parse_usize(&chars("+1")), None);
    assert_eq!(parse_usize(&chars("1 ")), None);
    assert_eq!(parse_usize(&chars("١")), None);
}

#[test]
fn text_is_padded_trimmed_and_searched() {
    let mut s = "├─".to_owned();
    pad_to(&mut s, 2, 5);
    assert_eq!(s, "├─   ");
    pad_to(&mut s, 5, 3);
    assert_eq!(s, "├─   ");

    assert_eq!(chars_of("a├b"), vec!['a', '├', 'b']);
    assert_eq!(trimmed(&chars(" \n\t a b \r\n")), chars("a b"));
    assert_eq!(trimmed(&chars(" \u{a0}\u{3000} ")), chars(""));
    assert_eq!(trimmed_start(&chars("  a ")), chars("a "));
    assert!(char_is_space('\u{2003}') && !char_is_space('x') && !char_is_space('\u{200b}'));
    assert_eq!(slice_of(&chars("hello"), 1, 3), chars("el"));

    let text = chars("abcabc");
    assert_eq!(find_char(&text, 'c', 0), 2);
    assert_eq!(find_char(&text, 'c', 3), 5);
    assert_eq!(find_char(&text, 'x', 0), 6);
    assert_eq!(find_pattern(&text, &chars("ca"), 0), 2);
    assert_eq!(find_pattern(&text, &chars("bc"), 2), 4);
    assert_eq!(find_pattern(&text, &chars("cb"), 0), 6);
    assert_eq!(find_pattern(&text, &chars("abcabcd"), 0), 6);
    assert!(matches_at(&text, &chars("bca"), 1));
    assert!(!matches_at(&text, &chars("bca"), 0));
    assert!(same_text(&text, "abcabc") && !same_text(&text, "abcab"));
}

#[test]
fn dump_grammar_is_strict_about_its_two_lines() {
    let parsed = |s: &str| parse_fiber_dump(s.to_owned()).map(|f| (f.id, f.parent_id, f.status));
    assert_eq!(parsed("\n  #12 (1s)\nStatus: Running()\n"), Some((12, None, FiberStatus::Running)));
    assert_eq!(parsed("#12 (1s)\n\tStatus: Done(x)\nmore"), Some((12, None, FiberStatus::Done)));
    assert_eq!(parsed("12 (1s)\nStatus: Running()"), None);
    assert_eq!(parsed("#12\nStatus: Running()"), None);
    assert_eq!(parsed("# (1s)\nStatus: Running()"), None);
    assert_eq!(parsed("#1x (1s)\nStatus: Running()"), None);
    assert_eq!(parsed("#99999999999999999999999 (1s)\nStatus: Running()"), None);
    assert_eq!(parsed("#1 (1s)\nStatus: Running"), None);
    assert_eq!(parsed("#1 (1s)\nStatus:Running()"), None);
    assert_eq!(parsed("#1 (1s)\nState: Running()"), None);
    assert_eq!(parsed("#1 (1s)\nStatus: running()"), None);
    assert_eq!(parsed("#1 (1s)\nStatus: Suspended(Done, Running())"), Some((1, None, FiberStatus::Suspended)));
    assert_eq!(parsed("#1 (1s)\n\nStatus: Running()"), None);
    assert_eq!(parsed("   \n  "), None);
}

#[test]
fn parent_is_read_behind_the_spawn_marker() {
    let parent = |s: &str| parse_fiber_dump(s.to_owned()).map(|f| f.parent_id);
    let head = "#3 (1s)\nStatus: Running()\n";
    assert_eq!(parent(&format!("{}Fiber:Id(10,3) was spawned by:\nFiber:Id(9,2) x", head)), Some(Some(2)));
    assert_eq!(parent(&format!("{}Fiber:Id(10,3) was spawned by: Fiber:Id(9,77)", head)), Some(Some(77)));
    assert_eq!(parent(&format!("{}Fiber:Id(10,3) was supposed to", head)), Some(None));
    assert_eq!(parent(&format!("{}was spawned by: nobody", head)), Some(None));
    assert_eq!(parent(&format!("{}was spawned by: ) then ,5)", head)), Some(None));
    assert_eq!(parent(&format!("{}was spawned by: (1,x)", head)), Some(None));
    assert_eq!(parent(&format!("{}was spawned by: (1,)", head)), Some(None));
    let fields = parse_fields(&chars(&format!("{}was spawned by: (1,8)", head))).unwrap();
    assert_eq!((fields.id, fields.parent_id, fields.status), (3, Some(8), FiberStatus::Running));
}

#[test]
fn series_forget_the_oldest_first() {
    let mut series: VecDeque<u8> = VecDeque::new();
    for i in 0..4 {
        record(&mut series, i, 3);
    }
    assert_eq!(series, vec![1, 2, 3]);
    let mut long: VecDeque<u8> = (0..10).collect();
    record(&mut long, 10, 2);
    assert_eq!(long, vec![9, 10]);
    record(&mut long, 11, 0);
    assert_eq!(long.len(), 0);
    let count = FiberCount { done: 1, finishing: 2, running: 3, suspended: 4 };
    assert_eq!(count.total(), 10);
}

#[test]
fn zookeeper_status_is_read_from_the_answers() {
    let lines = |v: &[&str]| v.iter().map(|s| s.to_string()).collect::<Vec<String>>();
    let srvr = lines(&["Zookeeper version: 3.5", "Mode: follower", "Node count: 5"]);
    let conf = lines(&["clientPort=2181", "serverId=3", "tickTime=2000"]);
    assert_eq!(
        node_status(srvr.clone(), conf.clone()),
        Some(ZNode { id: "3".to_owned(), mode: Mode::Follower })
    );
    assert_eq!(node_status(vec![], conf.clone()), None);
    assert_eq!(node_status(srvr.clone(), vec![]), None);
    assert_eq!(
        node_status(lines(&["Mode: leader", "Mode: observer"]), lines(&["serverId=1", "serverId=ü2"])),
        Some(ZNode { id: "ü2".to_owned(), mode: Mode::Unknown })
    );
    assert_eq!(grep(srvr.clone(), "Mode".to_owned()), lines(&["Mode: follower"]));
    assert_eq!(grep(srvr.clone(), "".to_owned()), srvr);
    assert_eq!(grep(srvr, "mode".to_owned()), Vec::<String>::new());
    assert_eq!(drop_n_chars("Mode: leader".to_owned(), 6), "leader");
    assert_eq!(drop_n_chars("äöü".to_owned(), 1), "öü");
    assert_eq!(drop_n_chars("abc".to_owned(), 3), "");
    assert_eq!(drop_n_chars("abc".to_owned(), 9), "");
    assert_eq!(parse_mode(&"standalone".to_owned()), Mode::Standalone);
    assert_eq!(parse_mode(&"leader".to_owned()), Mode::Leader);
    assert_eq!(parse_mode(&"Leader".to_owned()), Mode::Unknown);
    assert_eq!(Mode::Standalone.to_string(), "Standalone");
    let addr = ZAddr { host: "zk1".to_owned(), port: "2181".to_owned() };
    assert_eq!(nc_command(&addr, Word::Srvr), "echo -n 'srvr' | nc -w 3 zk1 2181");
    assert_eq!(nc_command(&addr, Word::Conf), "echo -n 'conf' | nc -w 3 zk1 2181");
    assert_eq!(nc_command(&addr, Word::Wchc), "echo -n 'wchc' | nc -w 3 zk1 2181");
}
