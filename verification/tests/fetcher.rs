use panopticon_tui::akka::client::{build_actor_tree, ActorPath};
use panopticon_tui::akka::model::{
    ActorSystemStatus, ActorTreeNode, AkkaSettings, ClusterMember, ClusterStatus,
    DeadLettersMetrics, DeadLettersSnapshot, DeadLettersWindow, DeadLettersWindowData,
};
use panopticon_tui::fetcher::{
    jmx_service_url, BackendCall, BackendReply, Dispatcher, Fetcher, FetcherRequest,
    FetcherResponse, Step,
};
use panopticon_tui::jmx::client::JMXClient;
use panopticon_tui::jmx::model::{
    HikariMetrics, JMXConnectionSettings, SlickConfig, SlickMetrics,
};
use panopticon_tui::zio::model::{Fiber, FiberStatus};
use panopticon_tui::zio::zmx_client::{
    dump_request, read_dump, read_reply, NetworkZMXClient, Reply, ReplyItem,
};

fn jmx_settings() -> JMXConnectionSettings {
    JMXConnectionSettings {
        address: "localhost:9010".to_owned(),
        username: Some("u".to_owned()),
        password: None,
        db_pool_name: "db".to_owned(),
    }
}

fn akka_settings() -> AkkaSettings {
    AkkaSettings {
        tree_address: "http://host/tree".to_owned(),
        status_address: "http://host/status".to_owned(),
        dead_letters_address: "http://host/dead".to_owned(),
        cluster_status_address: Some("http://host/cluster".to_owned()),
        tree_timeout: 1000,
        status_timeout: 1600,
        dead_letters_window: 5000,
    }
}

fn healthy() -> Dispatcher {
    Dispatcher::start(Fetcher::new(
        Some("localhost:6789".to_owned()),
        Some(jmx_settings()),
        Some(akka_settings()),
        Ok(()),
    ))
}

fn all_requests() -> Vec<FetcherRequest> {
    vec![
        FetcherRequest::FiberDump,
        FetcherRequest::RegularFiberDump,
        FetcherRequest::HikariMetrics,
        FetcherRequest::SlickMetrics,
        FetcherRequest::SlickConfig,
        FetcherRequest::ActorTree,
        FetcherRequest::ActorSystemStatus,
        FetcherRequest::DeadLetters,
        FetcherRequest::ClusterStatus,
    ]
}

fn fiber(id: usize, parent_id: Option<usize>, status: FiberStatus, dump: &str) -> Fiber {
    Fiber { id, parent_id, status, dump: dump.to_owned() }
}

fn path(name: &str, children: Vec<ActorPath>) -> ActorPath {
    ActorPath { name: name.to_owned(), children }
}

fn err<T>(s: &str) -> Result<T, String> {
    Err(s.to_owned())
}

fn window() -> DeadLettersWindow {
    let none = DeadLettersWindowData { count: 0, is_min_estimate: false };
    DeadLettersWindow { within_millis: 5000, dead_letters: none, unhandled: none, dropped: none }
}

fn reply_to(call: &BackendCall) -> BackendReply {
    match call {
        BackendCall::FiberDump { .. } => BackendReply::FiberDump(Ok(vec![])),
        BackendCall::HikariMetrics { .. } => BackendReply::HikariMetrics(Ok(HikariMetrics {
            total: 1,
            active: 1,
            idle: 0,
            waiting: 0,
        })),
        BackendCall::SlickMetrics { .. } => {
            BackendReply::SlickMetrics(Ok(SlickMetrics { active_threads: 1, queue_size: 2 }))
        }
        BackendCall::SlickConfig { .. } => {
            BackendReply::SlickConfig(Ok(SlickConfig { max_threads: 3, max_queue_size: 4 }))
        }
        BackendCall::ActorTree { .. } => BackendReply::ActorTree(Ok(vec![])),
        BackendCall::ActorSystemStatus { .. } => {
            BackendReply::ActorSystemStatus(Ok(ActorSystemStatus {
                actor_count: 1,
                uptime: 2,
                start_time: 3,
            }))
        }
        BackendCall::DeadLetters { .. } => BackendReply::DeadLetters(Ok(DeadLettersMetrics {
            snapshot: DeadLettersSnapshot { dead_letters: vec![], unhandled: vec![], dropped: vec![] },
            window: window(),
        })),
        BackendCall::ClusterStatus { .. } => BackendReply::ClusterStatus(Ok(ClusterStatus {
            self_node: "n".to_owned(),
            members: vec![ClusterMember {
                node: "n".to_owned(),
                node_uid: "1".to_owned(),
                status: "Up".to_owned(),
                roles: vec![],
            }],
            unreachable: vec![],
            leader: "n".to_owned(),
            oldest: "n".to_owned(),
        })),
    }
}

fn same_variant(request: FetcherRequest, response: &FetcherResponse) -> bool {
    match (request, response) {
        (FetcherRequest::FiberDump, FetcherResponse::FiberDump(_)) => true,
        (FetcherRequest::RegularFiberDump, FetcherResponse::RegularFiberDump(_)) => true,
        (FetcherRequest::HikariMetrics, FetcherResponse::HikariMetrics(_)) => true,
        (FetcherRequest::SlickMetrics, FetcherResponse::SlickMetrics(_)) => true,
        (FetcherRequest::SlickConfig, FetcherResponse::SlickConfig(_)) => true,
        (FetcherRequest::ActorTree, FetcherResponse::ActorTree(_)) => true,
        (FetcherRequest::ActorSystemStatus, FetcherResponse::ActorSystemStatus(_)) => true,
        (FetcherRequest::DeadLetters, FetcherResponse::DeadLetters(_)) => true,
        (FetcherRequest::ClusterStatus, FetcherResponse::ClusterStatus(_)) => true,
        _ => false,
    }
}

#[test]
fn healthy_dispatcher_answers_each_request_in_kind() {
    let dispatcher = healthy();
    let mut responses = vec![];
    for request in all_requests() {
        let response = match dispatcher.on_request(request) {
            Step::Call(call) => dispatcher.on_reply(request, reply_to(&call)),
            Step::Respond(response) => response,
        };
        assert!(same_variant(request, &response));
        responses.push(response);
    }
    assert_eq!(responses.len(), 9);
    assert_eq!(responses[0], FetcherResponse::FiberDump(Ok(vec![])));
    assert_eq!(
        responses[3],
        FetcherResponse::SlickMetrics(Ok(SlickMetrics { active_threads: 1, queue_size: 2 }))
    );
    assert_eq!(responses[7], FetcherResponse::DeadLetters(Ok((
        DeadLettersSnapshot { dead_letters: vec![], unhandled: vec![], dropped: vec![] },
        window(),
    ))));
    match &responses[8] {
        FetcherResponse::ClusterStatus(Ok(members)) => assert_eq!(members[0].status, "Up"),
        other => panic!("{:?}", other),
    }
}

#[test]
fn failed_dispatcher_answers_everything_with_its_failure() {
    let fetcher = Fetcher::new(None, Some(jmx_settings()), None, Err("refused".to_owned()));
    let message = "Couldn't connect to jmx at service:jmx:rmi://localhost:9010/jndi/rmi://localhost:9010/jmxrmi. Error: refused";
    assert_eq!(fetcher, Err(message.to_owned()));
    let dispatcher = Dispatcher::start(fetcher);
    for request in all_requests() {
        assert_eq!(
            dispatcher.on_request(request),
            Step::Respond(FetcherResponse::FatalFailure(message.to_owned()))
        );
        assert_eq!(
            dispatcher.on_reply(request, BackendReply::FiberDump(Ok(vec![]))),
            FetcherResponse::FatalFailure(message.to_owned())
        );
    }
}

#[test]
fn connection_outcome_is_ignored_without_pool_settings() {
    let fetcher = Fetcher::new(Some("a".to_owned()), None, None, Err("unused".to_owned()));
    assert_eq!(
        fetcher,
        Ok(Fetcher { zmx_address: Some("a".to_owned()), jmx: None, akka_settings: None })
    );
}

#[test]
fn requests_name_their_backend_calls() {
    let dispatcher = healthy();
    let call = |r| match dispatcher.on_request(r) {
        Step::Call(c) => c,
        Step::Respond(r) => panic!("{:?}", r),
    };
    assert_eq!(
        call(FetcherRequest::FiberDump),
        BackendCall::FiberDump { address: "localhost:6789".to_owned() }
    );
    assert_eq!(
        call(FetcherRequest::RegularFiberDump),
        BackendCall::FiberDump { address: "localhost:6789".to_owned() }
    );
    assert_eq!(
        call(FetcherRequest::HikariMetrics),
        BackendCall::HikariMetrics { bean: "com.zaxxer.hikari:type=Pool (db)".to_owned() }
    );
    assert_eq!(
        call(FetcherRequest::SlickMetrics),
        BackendCall::SlickMetrics { bean: "slick:type=AsyncExecutor,name=db".to_owned() }
    );
    assert_eq!(
        call(FetcherRequest::SlickConfig),
        BackendCall::SlickConfig { bean: "slick:type=AsyncExecutor,name=db".to_owned() }
    );
    assert_eq!(
        call(FetcherRequest::ActorTree),
        BackendCall::ActorTree { url: "http://host/tree?timeout=1000".to_owned() }
    );
    assert_eq!(
        call(FetcherRequest::ActorSystemStatus),
        BackendCall::ActorSystemStatus { url: "http://host/status?timeout=1600".to_owned() }
    );
    assert_eq!(
        call(FetcherRequest::DeadLetters),
        BackendCall::DeadLetters { url: "http://host/dead?window=5000".to_owned() }
    );
    assert_eq!(
        call(FetcherRequest::ClusterStatus),
        BackendCall::ClusterStatus { url: "http://host/cluster".to_owned() }
    );
    assert_eq!(
        jmx_service_url(&"h:1".to_owned()),
        "service:jmx:rmi://h:1/jndi/rmi://h:1/jmxrmi"
    );
}

#[test]
fn unconfigured_backends_are_answered_without_a_call() {
    let dispatcher =
        Dispatcher::start(Fetcher::new(Some("a".to_owned()), None, None, Ok(())));
    assert_eq!(
        dispatcher.on_request(FetcherRequest::SlickMetrics),
        Step::Respond(FetcherResponse::SlickMetrics(Err(
            "No backend is configured for this request".to_owned()
        )))
    );
    assert_eq!(
        dispatcher.on_request(FetcherRequest::ClusterStatus),
        Step::Respond(FetcherResponse::ClusterStatus(Err(
            "No backend is configured for this request".to_owned()
        )))
    );
}

#[test]
fn backend_failures_are_put_in_words() {
    let dispatcher = healthy();
    assert_eq!(
        dispatcher.on_reply(FetcherRequest::FiberDump, BackendReply::FiberDump(err("боom"))),
        FetcherResponse::FiberDump(Err("Couldn't get fiber dump from localhost:6789. Make sure zio-zmx is listening on specified port. Underlying error: боom".to_owned()))
    );
    assert_eq!(
        dispatcher.on_reply(FetcherRequest::RegularFiberDump, BackendReply::FiberDump(err("x"))),
        FetcherResponse::RegularFiberDump(Err("Couldn't get fiber dump from localhost:6789. Make sure zio-zmx is listening on specified port. Underlying error: x".to_owned()))
    );
    let slick = "No Slick JMX metrics found. Are you sure you have registerMbeans=true in your Slick config?\r\nUnderlying error: x";
    assert_eq!(
        dispatcher.on_reply(FetcherRequest::HikariMetrics, BackendReply::HikariMetrics(err("x"))),
        FetcherResponse::HikariMetrics(Err(slick.to_owned()))
    );
    assert_eq!(
        dispatcher.on_reply(FetcherRequest::SlickMetrics, BackendReply::SlickMetrics(err("x"))),
        FetcherResponse::SlickMetrics(Err(slick.to_owned()))
    );
    assert_eq!(
        dispatcher.on_reply(FetcherRequest::SlickConfig, BackendReply::SlickConfig(err("x"))),
        FetcherResponse::SlickConfig(Err(slick.to_owned()))
    );
    assert_eq!(
        dispatcher.on_reply(FetcherRequest::ActorTree, BackendReply::ActorTree(err("x"))),
        FetcherResponse::ActorTree(Err("Error loading akka actor tree tree: x".to_owned()))
    );
    assert_eq!(
        dispatcher.on_reply(
            FetcherRequest::ActorSystemStatus,
            BackendReply::ActorSystemStatus(err("x"))
        ),
        FetcherResponse::ActorSystemStatus(Err(
            "Error loading akka actor system status: x".to_owned()
        ))
    );
    assert_eq!(
        dispatcher.on_reply(FetcherRequest::DeadLetters, BackendReply::DeadLetters(err("x"))),
        FetcherResponse::DeadLetters(Err("Error loading dead letters metrics: x".to_owned()))
    );
    assert_eq!(
        dispatcher.on_reply(FetcherRequest::ClusterStatus, BackendReply::ClusterStatus(err("x"))),
        FetcherResponse::ClusterStatus(Err("x".to_owned()))
    );
    assert_eq!(
        dispatcher.on_reply(FetcherRequest::ActorTree, BackendReply::FiberDump(Ok(vec![]))),
        FetcherResponse::ActorTree(Err(
            "The backend reply does not belong to this request".to_owned()
        ))
    );
}

#[test]
fn actor_tree_is_numbered_depth_first_with_user_first() {
    let top = vec![
        path("system", vec![path("log", vec![])]),
        path("user", vec![path("a", vec![path("b", vec![])]), path("c", vec![])]),
        path("temp", vec![]),
    ];
    let node = |name: &str, parent, id| ActorTreeNode { name: name.to_owned(), parent, id };
    let expected = vec![
        node("user", None, 1),
        node("a", Some(1), 2),
        node("b", Some(2), 3),
        node("c", Some(1), 4),
        node("system", None, 5),
        node("log", Some(5), 6),
        node("temp", None, 7),
    ];
    assert_eq!(build_actor_tree(&top), expected);
    assert_eq!(build_actor_tree(&vec![]), vec![]);
    assert_eq!(
        healthy().on_reply(FetcherRequest::ActorTree, BackendReply::ActorTree(Ok(top))),
        FetcherResponse::ActorTree(Ok(expected))
    );
}

#[test]
fn pool_samples_are_assembled_from_the_values_read() {
    let client = JMXClient::new("db".to_owned());
    assert_eq!(client.slick_bean_name(), "slick:type=AsyncExecutor,name=db");
    assert_eq!(client.hikari_bean_name(), "com.zaxxer.hikari:type=Pool (db)");
    let ok = |v: i32| -> Result<i32, String> { Ok(v) };
    let err = |s: &str| -> Result<i32, String> { Err(s.to_owned()) };
    assert_eq!(
        client.get_hikari_metrics(ok(10), ok(2), ok(1), ok(7)),
        Ok(HikariMetrics { total: 10, active: 2, idle: 7, waiting: 1 })
    );
    assert_eq!(
        client.get_hikari_metrics(ok(10), err("second"), err("third"), ok(7)),
        Err("second".to_owned())
    );
    assert_eq!(
        client.get_slick_metrics(ok(4), ok(9)),
        Ok(SlickMetrics { active_threads: 4, queue_size: 9 })
    );
    assert_eq!(client.get_slick_metrics(err("a"), err("b")), Err("a".to_owned()));
    assert_eq!(
        client.get_slick_config(ok(20), ok(1000)),
        Ok(SlickConfig { max_threads: 20, max_queue_size: 1000 })
    );
    assert_eq!(client.get_slick_config(ok(20), err("b")), Err("b".to_owned()));
}

#[test]
fn dump_command_is_one_array_of_one_bulk_string() {
    assert_eq!(dump_request(), b"*1\r\n$4\r\ndump\r\n".to_vec());
    let client = NetworkZMXClient::new("localhost:6789".to_owned());
    assert_eq!(client.address(), "localhost:6789");
    assert_eq!(client.request(), b"*1\r\n$4\r\ndump\r\n".to_vec());
}

#[test]
fn answered_array_is_read_into_fibers() {
    let first = "#1 (1s)\nStatus: Running()";
    let second = "#2 (1s)\nStatus: Suspended(x)\nFiber:Id(1,2) was spawned by:\nFiber:Id(0,1) was";
    let reply = format!(
        "*2\r\n${}\r\n{}\r\n${}\r\n{}\r\n",
        first.len(),
        first,
        second.len(),
        second
    );
    let client = NetworkZMXClient::new("a".to_owned());
    assert_eq!(
        client.fibers_in(&reply.into_bytes()),
        Ok(vec![
            fiber(1, None, FiberStatus::Running, first),
            fiber(2, Some(1), FiberStatus::Suspended, second)
        ])
    );
    assert_eq!(read_reply(&b"*0\r\n".to_vec()), Ok(vec![]));
}

#[test]
fn other_answers_are_protocol_errors() {
    assert_eq!(
        read_reply(&b"+OK\r\n".to_vec()),
        Err("Incomplete frame, parsed 5 bytes".to_owned())
    );
    assert_eq!(
        read_reply(&b"-ERR unknown\r\n".to_vec()),
        Err("Incomplete frame, parsed 14 bytes".to_owned())
    );
    assert_eq!(
        read_reply(&b"*2\r\n$3\r\nabc".to_vec()),
        Err("Incomplete frame, parsed 0 bytes".to_owned())
    );
    assert_eq!(read_reply(&vec![]), Err("Incomplete frame, parsed 0 bytes".to_owned()));
    let rejected = read_reply(&b"?what\r\n".to_vec()).unwrap_err();
    assert!(rejected.starts_with("Error parsing bytes: "), "{}", rejected);
    let number = read_reply(&b"*1\r\n:5\r\n".to_vec()).unwrap_err();
    assert!(number.starts_with("Failed to parse dump - invalid frame: "), "{}", number);
    assert_eq!(
        read_reply(&b"*2\r\n$3\r\nabc\r\n$1\r\nx\r\n".to_vec()),
        Err("Unknown dump format, failed to parse: abc".to_owned())
    );
}

#[test]
fn decoded_answers_are_read_element_by_element() {
    let good = "#7 (1s)\nStatus: Done()";
    assert_eq!(
        read_dump(Ok(Reply::Array(vec![ReplyItem::Text(good.to_owned())]))),
        Ok(vec![fiber(7, None, FiberStatus::Done, good)])
    );
    assert_eq!(
        read_dump(Ok(Reply::Array(vec![
            ReplyItem::Text(good.to_owned()),
            ReplyItem::Other("Integer(5)".to_owned()),
            ReplyItem::Text("bad".to_owned()),
        ]))),
        Err("Failed to parse dump - invalid frame: Integer(5)".to_owned())
    );
    assert_eq!(
        read_dump(Ok(Reply::Other(12))),
        Err("Incomplete frame, parsed 12 bytes".to_owned())
    );
    assert_eq!(read_dump(Err("bad".to_owned())), Err("Error parsing bytes: bad".to_owned()));
}
