//! The fetch engine as a state machine.
//!
//! The engine answers every request with exactly one response. What it
//! decides stands here: which backend call a request needs, and which
//! response the outcome of that call makes. Performing the call is left to
//! the caller, who hands the outcome back. An engine that could not be set
//! up answers every request with the same fatal failure and asks for no
//! call at all.

use vstd::prelude::*;
use vstd::string::*;
use crate::akka::client::{actor_nodes, build_actor_tree, ActorPath};
use crate::akka::model::{
    ActorSystemStatus,
    ActorTreeNode,
    AkkaSettings,
    ClusterMember,
    ClusterStatus,
    DeadLettersMetrics,
    DeadLettersSnapshot,
    DeadLettersWindow,
};
use crate::jmx::client::JMXClient;
use crate::jmx::model::{HikariMetrics, JMXConnectionSettings, SlickConfig, SlickMetrics};
use crate::text::{decimal, push_decimal};
use crate::widgets::tree::node_views;
use crate::zio::model::Fiber;

verus! {

/// What the event loop can ask of the engine.
#[derive(Debug, PartialEq, Eq, Hash, Clone, Copy, Structural)]
pub enum FetcherRequest {
    FiberDump,
    RegularFiberDump,
    HikariMetrics,
    SlickMetrics,
    SlickConfig,
    ActorTree,
    ActorSystemStatus,
    DeadLetters,
    ClusterStatus,
}

/// What the engine answers: one variant per request, and the fatal
/// failure of an engine that could not be set up.
#[derive(Debug, PartialEq, Eq)]
pub enum FetcherResponse {
    FiberDump(Result<Vec<Fiber>, String>),
    RegularFiberDump(Result<Vec<Fiber>, String>),
    HikariMetrics(Result<HikariMetrics, String>),
    SlickMetrics(Result<SlickMetrics, String>),
    SlickConfig(Result<SlickConfig, String>),
    ActorTree(Result<Vec<ActorTreeNode>, String>),
    ActorSystemStatus(Result<ActorSystemStatus, String>),
    DeadLetters(Result<(DeadLettersSnapshot, DeadLettersWindow), String>),
    ClusterStatus(Result<Vec<ClusterMember>, String>),
    FatalFailure(String),
}

/// A call to a backend, for the caller to perform.
#[derive(Debug, PartialEq, Eq)]
pub enum BackendCall {
    /// Exchange the dump command with the runtime at `address`.
    FiberDump { address: String },
    /// Read the pool gauges from the bean `bean`.
    HikariMetrics { bean: String },
    /// Read the executor gauges from the bean `bean`.
    SlickMetrics { bean: String },
    /// Read the executor limits from the bean `bean`.
    SlickConfig { bean: String },
    /// Get the actor tree from `url`.
    ActorTree { url: String },
    /// Get the actor-system status from `url`.
    ActorSystemStatus { url: String },
    /// Get the dead-letter metrics from `url`.
    DeadLetters { url: String },
    /// Get the cluster status from `url`.
    ClusterStatus { url: String },
}

/// What a backend call came to: the value it gave or the words of its
/// failure.
#[derive(Debug, PartialEq, Eq)]
pub enum BackendReply {
    FiberDump(Result<Vec<Fiber>, String>),
    HikariMetrics(Result<HikariMetrics, String>),
    SlickMetrics(Result<SlickMetrics, String>),
    SlickConfig(Result<SlickConfig, String>),
    ActorTree(Result<Vec<ActorPath>, String>),
    ActorSystemStatus(Result<ActorSystemStatus, String>),
    DeadLetters(Result<DeadLettersMetrics, String>),
    ClusterStatus(Result<ClusterStatus, String>),
}

/// What the engine does on a request: ask for a backend call, or answer
/// at once.
#[derive(Debug, PartialEq, Eq)]
pub enum Step {
    Call(BackendCall),
    Respond(FetcherResponse),
}

impl FetcherResponse {
    /// The response is the variant that answers `request`.
    pub open spec fn answers(self, request: FetcherRequest) -> bool {
        match request {
            FetcherRequest::FiberDump => self is FiberDump,
            FetcherRequest::RegularFiberDump => self is RegularFiberDump,
            FetcherRequest::HikariMetrics => self is HikariMetrics,
            FetcherRequest::SlickMetrics => self is SlickMetrics,
            FetcherRequest::SlickConfig => self is SlickConfig,
            FetcherRequest::ActorTree => self is ActorTree,
            FetcherRequest::ActorSystemStatus => self is ActorSystemStatus,
            FetcherRequest::DeadLetters => self is DeadLetters,
            FetcherRequest::ClusterStatus => self is ClusterStatus,
        }
    }

    /// The words of the failure that the response carries, if it carries
    /// one.
    pub open spec fn failure(self) -> Option<Seq<char>> {
        match self {
            FetcherResponse::FiberDump(Err(e)) => Some(e@),
            FetcherResponse::RegularFiberDump(Err(e)) => Some(e@),
            FetcherResponse::HikariMetrics(Err(e)) => Some(e@),
            FetcherResponse::SlickMetrics(Err(e)) => Some(e@),
            FetcherResponse::SlickConfig(Err(e)) => Some(e@),
            FetcherResponse::ActorTree(Err(e)) => Some(e@),
            FetcherResponse::ActorSystemStatus(Err(e)) => Some(e@),
            FetcherResponse::DeadLetters(Err(e)) => Some(e@),
            FetcherResponse::ClusterStatus(Err(e)) => Some(e@),
            FetcherResponse::FatalFailure(e) => Some(e@),
            _ => None,
        }
    }
}

/// The failed response to `request` with the words `message`.
pub fn failed(request: FetcherRequest, message: String) -> (response: FetcherResponse)
    ensures
        response.answers(request),
        response.failure() == Some(message@),
{
    match request {
        FetcherRequest::FiberDump => FetcherResponse::FiberDump(Err(message)),
        FetcherRequest::RegularFiberDump => FetcherResponse::RegularFiberDump(Err(message)),
        FetcherRequest::HikariMetrics => FetcherResponse::HikariMetrics(Err(message)),
        FetcherRequest::SlickMetrics => FetcherResponse::SlickMetrics(Err(message)),
        FetcherRequest::SlickConfig => FetcherResponse::SlickConfig(Err(message)),
        FetcherRequest::ActorTree => FetcherResponse::ActorTree(Err(message)),
        FetcherRequest::ActorSystemStatus => FetcherResponse::ActorSystemStatus(Err(message)),
        FetcherRequest::DeadLetters => FetcherResponse::DeadLetters(Err(message)),
        FetcherRequest::ClusterStatus => FetcherResponse::ClusterStatus(Err(message)),
    }
}

/// `before`, then `value`, then `after`.
pub fn framed(before: &str, value: &str, after: &str) -> (text: String)
    ensures
        text@ == before@ + value@ + after@,
{
    let mut text = before.to_owned();
    text.append(value);
    text.append(after);
    text
}

/// `before`, then `value`.
pub fn prefixed(before: &str, value: &str) -> (text: String)
    ensures
        text@ == before@ + value@,
{
    let mut text = before.to_owned();
    text.append(value);
    text
}

/// The address of the management beans at `address`.
pub open spec fn jmx_service_url_text(address: Seq<char>) -> Seq<char> {
    "service:jmx:rmi://"@ + address + "/jndi/rmi://"@ + address + "/jmxrmi"@
}

/// The address under which the management beans at `address` are reached.
pub fn jmx_service_url(address: &String) -> (url: String)
    ensures
        url@ == jmx_service_url_text(address@),
{
    let mut url = framed("service:jmx:rmi://", address.as_str(), "/jndi/rmi://");
    url.append(address.as_str());
    url.append("/jmxrmi");
    url
}

/// `url` with the query `?<key>=<value>`.
pub open spec fn with_query(url: Seq<char>, key: Seq<char>, value: u64) -> Seq<char> {
    url + seq!['?'] + key + seq!['='] + decimal(value as nat)
}

fn url_with_query(url: &String, key: &str, value: u64) -> (full: String)
    ensures
        full@ == with_query(url@, key@, value),
{
    proof {
        reveal_strlit("?");
        reveal_strlit("=");
    }
    let mut full = framed(url.as_str(), "?", key);
    full.append("=");
    push_decimal(&mut full, value);
    assert(full@ =~= with_query(url@, key@, value));
    full
}

/// The words of a failed connection to the management beans.
pub open spec fn jmx_connect_failure(address: Seq<char>, error: Seq<char>) -> Seq<char> {
    "Couldn't connect to jmx at "@ + jmx_service_url_text(address) + ". Error: "@ + error
}

/// The words of a failed fiber dump.
pub open spec fn fiber_dump_failure(address: Seq<char>, error: Seq<char>) -> Seq<char> {
    "Couldn't get fiber dump from "@ + address
        + ". Make sure zio-zmx is listening on specified port. Underlying error: "@ + error
}

/// The words of a failed read of the pool beans.
pub open spec fn slick_failure(error: Seq<char>) -> Seq<char> {
    "No Slick JMX metrics found. Are you sure you have registerMbeans=true in your Slick config?\r\nUnderlying error: "@
        + error
}

pub open spec fn actor_tree_failure(error: Seq<char>) -> Seq<char> {
    "Error loading akka actor tree tree: "@ + error
}

pub open spec fn actor_system_status_failure(error: Seq<char>) -> Seq<char> {
    "Error loading akka actor system status: "@ + error
}

pub open spec fn dead_letters_failure(error: Seq<char>) -> Seq<char> {
    "Error loading dead letters metrics: "@ + error
}

/// The words with which a request is refused whose backend was not
/// configured.
pub open spec fn not_configured() -> Seq<char> {
    "No backend is configured for this request"@
}

/// The words with which a reply is refused that belongs to another
/// request.
pub open spec fn unexpected_reply() -> Seq<char> {
    "The backend reply does not belong to this request"@
}

/// The engine in working order: what it knows of each backend that was
/// configured.
#[derive(Debug, PartialEq, Eq)]
pub struct Fetcher {
    pub zmx_address: Option<String>,
    pub jmx: Option<JMXClient>,
    pub akka_settings: Option<AkkaSettings>,
}


/// The text of an address that may be missing.
pub open spec fn text_of(address: Option<String>) -> Seq<char> {
    match address {
        Some(a) => a@,
        None => Seq::empty(),
    }
}

impl Fetcher {
    /// Sets the engine up from the configured backends and the outcome of
    /// connecting to the management beans, where those are configured: a
    /// failed connection fails the engine for good.
    pub fn new(
        zio_zmx_addr: Option<String>,
        jmx: Option<JMXConnectionSettings>,
        akka: Option<AkkaSettings>,
        jmx_connection: Result<(), String>,
    ) -> (fetcher: Result<Fetcher, String>)
        ensures
            match (jmx, jmx_connection) {
                (Some(conn), Err(e)) => fetcher is Err && fetcher->Err_0@ == jmx_connect_failure(
                    conn.address@,
                    e@,
                ),
                (Some(conn), Ok(_)) => fetcher == Ok::<Fetcher, String>(
                    Fetcher {
                        zmx_address: zio_zmx_addr,
                        jmx: Some(JMXClient { db_pool_name: conn.db_pool_name }),
                        akka_settings: akka,
                    },
                ),
                (None, _) => fetcher == Ok::<Fetcher, String>(
                    Fetcher { zmx_address: zio_zmx_addr, jmx: None, akka_settings: akka },
                ),
            },
    {
        match jmx {
            None => Ok(Fetcher { zmx_address: zio_zmx_addr, jmx: None, akka_settings: akka }),
            Some(conn) => match jmx_connection {
                Ok(_) => Ok(
                    Fetcher {
                        zmx_address: zio_zmx_addr,
                        jmx: Some(JMXClient::new(conn.db_pool_name)),
                        akka_settings: akka,
                    },
                ),
                Err(e) => {
                    let url = jmx_service_url(&conn.address);
                    let mut message = framed("Couldn't connect to jmx at ", url.as_str(), ". Error: ");
                    message.append(e.as_str());
                    Err(message)
                },
            },
        }
    }

    /// `call` is the backend call that answers `request`.
    pub open spec fn calls(self, request: FetcherRequest, call: Option<BackendCall>) -> bool {
        match request {
            FetcherRequest::FiberDump | FetcherRequest::RegularFiberDump => match self.zmx_address {
                Some(address) => call == Some(BackendCall::FiberDump { address }),
                None => call is None,
            },
            FetcherRequest::HikariMetrics => match self.jmx {
                Some(client) => call matches Some(BackendCall::HikariMetrics { bean }) && bean@
                    == crate::jmx::client::hikari_bean(client.db_pool_name@),
                None => call is None,
            },
            FetcherRequest::SlickMetrics => match self.jmx {
                Some(client) => call matches Some(BackendCall::SlickMetrics { bean }) && bean@
                    == crate::jmx::client::slick_bean(client.db_pool_name@),
                None => call is None,
            },
            FetcherRequest::SlickConfig => match self.jmx {
                Some(client) => call matches Some(BackendCall::SlickConfig { bean }) && bean@
                    == crate::jmx::client::slick_bean(client.db_pool_name@),
                None => call is None,
            },
            FetcherRequest::ActorTree => match self.akka_settings {
                Some(akka) => call matches Some(BackendCall::ActorTree { url }) && url@
                    == with_query(akka.tree_address@, "timeout"@, akka.tree_timeout),
                None => call is None,
            },
            FetcherRequest::ActorSystemStatus => match self.akka_settings {
                Some(akka) => call matches Some(BackendCall::ActorSystemStatus { url }) && url@
                    == with_query(akka.status_address@, "timeout"@, akka.status_timeout),
                None => call is None,
            },
            FetcherRequest::DeadLetters => match self.akka_settings {
                Some(akka) => call matches Some(BackendCall::DeadLetters { url }) && url@
                    == with_query(akka.dead_letters_address@, "window"@, akka.dead_letters_window),
                None => call is None,
            },
            FetcherRequest::ClusterStatus => match self.akka_settings {
                Some(akka) => match akka.cluster_status_address {
                    Some(url) => call == Some(BackendCall::ClusterStatus { url }),
                    None => call is None,
                },
                None => call is None,
            },
        }
    }

    /// The backend call that answers `request`, or `None` where the
    /// backend of that request was not configured.
    pub fn call_for(&self, request: FetcherRequest) -> (call: Option<BackendCall>)
        ensures
            self.calls(request, call),
    {
        match request {
            FetcherRequest::FiberDump | FetcherRequest::RegularFiberDump => match &self.zmx_address {
                Some(address) => Some(BackendCall::FiberDump { address: address.clone() }),
                None => None,
            },
            FetcherRequest::HikariMetrics => match &self.jmx {
                Some(client) => Some(BackendCall::HikariMetrics { bean: client.hikari_bean_name() }),
                None => None,
            },
            FetcherRequest::SlickMetrics => match &self.jmx {
                Some(client) => Some(BackendCall::SlickMetrics { bean: client.slick_bean_name() }),
                None => None,
            },
            FetcherRequest::SlickConfig => match &self.jmx {
                Some(client) => Some(BackendCall::SlickConfig { bean: client.slick_bean_name() }),
                None => None,
            },
            FetcherRequest::ActorTree => match &self.akka_settings {
                Some(akka) => Some(
                    BackendCall::ActorTree {
                        url: url_with_query(&akka.tree_address, "timeout", akka.tree_timeout),
                    },
                ),
                None => None,
            },
            FetcherRequest::ActorSystemStatus => match &self.akka_settings {
                Some(akka) => Some(
                    BackendCall::ActorSystemStatus {
                        url: url_with_query(&akka.status_address, "timeout", akka.status_timeout),
                    },
                ),
                None => None,
            },
            FetcherRequest::DeadLetters => match &self.akka_settings {
                Some(akka) => Some(
                    BackendCall::DeadLetters {
                        url: url_with_query(
                            &akka.dead_letters_address,
                            "window",
                            akka.dead_letters_window,
                        ),
                    },
                ),
                None => None,
            },
            FetcherRequest::ClusterStatus => match &self.akka_settings {
                Some(akka) => match &akka.cluster_status_address {
                    Some(url) => Some(BackendCall::ClusterStatus { url: url.clone() }),
                    None => None,
                },
                None => None,
            },
        }
    }

    /// `response` is what the engine answers to `request` once the backend
    /// call came to `reply`: the value that the backend gave, made ready
    /// for display, or its failure put in words that name the backend. A
    /// reply to another request is answered as a failure.
    pub open spec fn responds(
        self,
        request: FetcherRequest,
        reply: BackendReply,
        response: FetcherResponse,
    ) -> bool {
        &&& response.answers(request)
        &&& match (request, reply) {
            (FetcherRequest::FiberDump, BackendReply::FiberDump(Ok(fibers))) => response
                == FetcherResponse::FiberDump(Ok(fibers)),
            (FetcherRequest::RegularFiberDump, BackendReply::FiberDump(Ok(fibers))) => response
                == FetcherResponse::RegularFiberDump(Ok(fibers)),
            (FetcherRequest::FiberDump, BackendReply::FiberDump(Err(e))) => response.failure()
                == Some(fiber_dump_failure(text_of(self.zmx_address), e@)),
            (FetcherRequest::RegularFiberDump, BackendReply::FiberDump(Err(e))) => response.failure()
                == Some(fiber_dump_failure(text_of(self.zmx_address), e@)),
            (FetcherRequest::HikariMetrics, BackendReply::HikariMetrics(Ok(m))) => response
                == FetcherResponse::HikariMetrics(Ok(m)),
            (FetcherRequest::HikariMetrics, BackendReply::HikariMetrics(Err(e))) => response.failure()
                == Some(slick_failure(e@)),
            (FetcherRequest::SlickMetrics, BackendReply::SlickMetrics(Ok(m))) => response
                == FetcherResponse::SlickMetrics(Ok(m)),
            (FetcherRequest::SlickMetrics, BackendReply::SlickMetrics(Err(e))) => response.failure()
                == Some(slick_failure(e@)),
            (FetcherRequest::SlickConfig, BackendReply::SlickConfig(Ok(c))) => response
                == FetcherResponse::SlickConfig(Ok(c)),
            (FetcherRequest::SlickConfig, BackendReply::SlickConfig(Err(e))) => response.failure()
                == Some(slick_failure(e@)),
            (FetcherRequest::ActorTree, BackendReply::ActorTree(Ok(paths))) => response matches FetcherResponse::ActorTree(
                Ok(actors),
            ) && node_views(actors@) == actor_nodes(paths@),
            (FetcherRequest::ActorTree, BackendReply::ActorTree(Err(e))) => response.failure()
                == Some(actor_tree_failure(e@)),
            (
                FetcherRequest::ActorSystemStatus,
                BackendReply::ActorSystemStatus(Ok(status)),
            ) => response == FetcherResponse::ActorSystemStatus(Ok(status)),
            (
                FetcherRequest::ActorSystemStatus,
                BackendReply::ActorSystemStatus(Err(e)),
            ) => response.failure() == Some(actor_system_status_failure(e@)),
            (FetcherRequest::DeadLetters, BackendReply::DeadLetters(Ok(metrics))) => response
                == FetcherResponse::DeadLetters(Ok((metrics.snapshot, metrics.window))),
            (FetcherRequest::DeadLetters, BackendReply::DeadLetters(Err(e))) => response.failure()
                == Some(dead_letters_failure(e@)),
            (FetcherRequest::ClusterStatus, BackendReply::ClusterStatus(Ok(status))) => response
                == FetcherResponse::ClusterStatus(Ok(status.members)),
            (FetcherRequest::ClusterStatus, BackendReply::ClusterStatus(Err(e))) => response.failure()
                == Some(e@),
            _ => response.failure() == Some(unexpected_reply()),
        }
    }

    fn format_slick_error(e: String) -> (message: String)
        ensures
            message@ == slick_failure(e@),
    {
        prefixed(
            "No Slick JMX metrics found. Are you sure you have registerMbeans=true in your Slick config?\r\nUnderlying error: ",
            e.as_str(),
        )
    }

    fn mismatch(request: FetcherRequest) -> (response: FetcherResponse)
        ensures
            response.answers(request),
            response.failure() == Some(unexpected_reply()),
    {
        failed(request, "The backend reply does not belong to this request".to_owned())
    }

    /// What a read of the pool gauges came to, with a failure put in
    /// words.
    pub fn get_hikari_metrics(&self, read: Result<HikariMetrics, String>) -> (metrics: Result<
        HikariMetrics,
        String,
    >)
        ensures
            match read {
                Ok(m) => metrics == Ok::<HikariMetrics, String>(m),
                Err(e) => metrics is Err && metrics->Err_0@ == slick_failure(e@),
            },
    {
        match read {
            Ok(m) => Ok(m),
            Err(e) => Err(Self::format_slick_error(e)),
        }
    }

    /// What a read of the executor gauges came to, with a failure put in
    /// words.
    pub fn get_slick_metrics(&self, read: Result<SlickMetrics, String>) -> (metrics: Result<
        SlickMetrics,
        String,
    >)
        ensures
            match read {
                Ok(m) => metrics == Ok::<SlickMetrics, String>(m),
                Err(e) => metrics is Err && metrics->Err_0@ == slick_failure(e@),
            },
    {
        match read {
            Ok(m) => Ok(m),
            Err(e) => Err(Self::format_slick_error(e)),
        }
    }

    /// What a read of the executor limits came to, with a failure put in
    /// words.
    pub fn get_slick_config(&self, read: Result<SlickConfig, String>) -> (config: Result<
        SlickConfig,
        String,
    >)
        ensures
            match read {
                Ok(c) => config == Ok::<SlickConfig, String>(c),
                Err(e) => config is Err && config->Err_0@ == slick_failure(e@),
            },
    {
        match read {
            Ok(c) => Ok(c),
            Err(e) => Err(Self::format_slick_error(e)),
        }
    }

    /// The actors of an answered actor tree, or its failure put in words.
    pub fn get_actor_tree(&self, reply: Result<Vec<ActorPath>, String>) -> (actors: Result<
        Vec<ActorTreeNode>,
        String,
    >)
        ensures
            match reply {
                Ok(paths) => actors is Ok && node_views(actors->Ok_0@) == actor_nodes(paths@),
                Err(e) => actors is Err && actors->Err_0@ == actor_tree_failure(e@),
            },
    {
        match reply {
            Ok(paths) => Ok(build_actor_tree(&paths)),
            Err(e) => Err(prefixed("Error loading akka actor tree tree: ", e.as_str())),
        }
    }

    /// An answered actor-system status, or its failure put in words.
    pub fn get_actor_system_status(&self, reply: Result<ActorSystemStatus, String>) -> (status:
        Result<ActorSystemStatus, String>)
        ensures
            match reply {
                Ok(s) => status == Ok::<ActorSystemStatus, String>(s),
                Err(e) => status is Err && status->Err_0@ == actor_system_status_failure(e@),
            },
    {
        match reply {
            Ok(s) => Ok(s),
            Err(e) => Err(prefixed("Error loading akka actor system status: ", e.as_str())),
        }
    }

    /// The members of an answered cluster status, or its failure as it
    /// came.
    pub fn get_akka_cluster_status(&self, reply: Result<ClusterStatus, String>) -> (members:
        Result<Vec<ClusterMember>, String>)
        ensures
            match reply {
                Ok(s) => members == Ok::<Vec<ClusterMember>, String>(s.members),
                Err(e) => members == Err::<Vec<ClusterMember>, String>(e),
            },
    {
        match reply {
            Ok(s) => Ok(s.members),
            Err(e) => Err(e),
        }
    }

    /// The snapshot and the window of answered dead-letter metrics, or
    /// their failure put in words.
    pub fn get_dead_letters(&self, reply: Result<DeadLettersMetrics, String>) -> (metrics:
        Result<(DeadLettersSnapshot, DeadLettersWindow), String>)
        ensures
            match reply {
                Ok(m) => metrics == Ok::<(DeadLettersSnapshot, DeadLettersWindow), String>(
                    (m.snapshot, m.window),
                ),
                Err(e) => metrics is Err && metrics->Err_0@ == dead_letters_failure(e@),
            },
    {
        match reply {
            Ok(m) => Ok((m.snapshot, m.window)),
            Err(e) => Err(prefixed("Error loading dead letters metrics: ", e.as_str())),
        }
    }

    /// What a fiber dump came to, with a failure put in words that name
    /// the runtime's address.
    pub fn dump_fibers(&self, reply: Result<Vec<Fiber>, String>) -> (dump: Result<
        Vec<Fiber>,
        String,
    >)
        ensures
            match reply {
                Ok(fibers) => dump == Ok::<Vec<Fiber>, String>(fibers),
                Err(e) => dump is Err && dump->Err_0@ == fiber_dump_failure(
                    text_of(self.zmx_address),
                    e@,
                ),
            },
    {
        match reply {
            Ok(fibers) => Ok(fibers),
            Err(e) => {
                let address = match &self.zmx_address {
                    Some(a) => a.clone(),
                    None => String::new(),
                };
                let mut message = framed(
                    "Couldn't get fiber dump from ",
                    address.as_str(),
                    ". Make sure zio-zmx is listening on specified port. Underlying error: ",
                );
                message.append(e.as_str());
                Err(message)
            },
        }
    }

    /// The response to `request` once its backend call came to `reply`.
    pub fn respond(&self, request: FetcherRequest, reply: BackendReply) -> (response:
        FetcherResponse)
        ensures
            self.responds(request, reply, response),
    {
        match (request, reply) {
            (FetcherRequest::FiberDump, BackendReply::FiberDump(r)) => FetcherResponse::FiberDump(
                self.dump_fibers(r),
            ),
            (
                FetcherRequest::RegularFiberDump,
                BackendReply::FiberDump(r),
            ) => FetcherResponse::RegularFiberDump(self.dump_fibers(r)),
            (
                FetcherRequest::HikariMetrics,
                BackendReply::HikariMetrics(r),
            ) => FetcherResponse::HikariMetrics(self.get_hikari_metrics(r)),
            (
                FetcherRequest::SlickMetrics,
                BackendReply::SlickMetrics(r),
            ) => FetcherResponse::SlickMetrics(self.get_slick_metrics(r)),
            (
                FetcherRequest::SlickConfig,
                BackendReply::SlickConfig(r),
            ) => FetcherResponse::SlickConfig(self.get_slick_config(r)),
            (FetcherRequest::ActorTree, BackendReply::ActorTree(r)) => FetcherResponse::ActorTree(
                self.get_actor_tree(r),
            ),
            (
                FetcherRequest::ActorSystemStatus,
                BackendReply::ActorSystemStatus(r),
            ) => FetcherResponse::ActorSystemStatus(self.get_actor_system_status(r)),
            (
                FetcherRequest::DeadLetters,
                BackendReply::DeadLetters(r),
            ) => FetcherResponse::DeadLetters(self.get_dead_letters(r)),
            (
                FetcherRequest::ClusterStatus,
                BackendReply::ClusterStatus(r),
            ) => FetcherResponse::ClusterStatus(self.get_akka_cluster_status(r)),
            (request, _) => Self::mismatch(request),
        }
    }
}

/// The engine as the event loop meets it: in working order, or failed for
/// good with the words of the failure that kept it from being set up.
#[derive(Debug, PartialEq, Eq)]
pub enum Dispatcher {
    Serving(Fetcher),
    Failed(String),
}

impl Dispatcher {
    /// The engine after the attempt to set it up.
    pub fn start(fetcher: Result<Fetcher, String>) -> (dispatcher: Dispatcher)
        ensures
            match fetcher {
                Ok(f) => dispatcher == Dispatcher::Serving(f),
                Err(e) => dispatcher == Dispatcher::Failed(e),
            },
    {
        match fetcher {
            Ok(f) => Dispatcher::Serving(f),
            Err(e) => Dispatcher::Failed(e),
        }
    }

    /// `step` is what the engine does on `request`. A failed engine
    /// answers with its fatal failure. A working engine asks for the
    /// backend call of the request, or, where that backend was not
    /// configured, answers the request with a failure.
    pub open spec fn steps(self, request: FetcherRequest, step: Step) -> bool {
        match self {
            Dispatcher::Failed(message) => step == Step::Respond(
                FetcherResponse::FatalFailure(message),
            ),
            Dispatcher::Serving(fetcher) => match step {
                Step::Call(call) => fetcher.calls(request, Some(call)),
                Step::Respond(response) => {
                    &&& fetcher.calls(request, None)
                    &&& response.answers(request)
                    &&& response.failure() == Some(not_configured())
                },
            },
        }
    }

    /// `response` is what the engine answers to `request` once the call
    /// it asked for came to `reply`.
    pub open spec fn replies(
        self,
        request: FetcherRequest,
        reply: BackendReply,
        response: FetcherResponse,
    ) -> bool {
        match self {
            Dispatcher::Failed(message) => response == FetcherResponse::FatalFailure(message),
            Dispatcher::Serving(fetcher) => fetcher.responds(request, reply, response),
        }
    }

    /// Takes one request: the engine either answers it at once or names
    /// the backend call to perform.
    pub fn on_request(&self, request: FetcherRequest) -> (step: Step)
        ensures
            self.steps(request, step),
    {
        match self {
            Dispatcher::Failed(message) => Step::Respond(
                FetcherResponse::FatalFailure(message.clone()),
            ),
            Dispatcher::Serving(fetcher) => match fetcher.call_for(request) {
                Some(call) => Step::Call(call),
                None => Step::Respond(
                    failed(request, "No backend is configured for this request".to_owned()),
                ),
            },
        }
    }

    /// Takes the outcome of the backend call of `request` and gives the
    /// response to it.
    pub fn on_reply(&self, request: FetcherRequest, reply: BackendReply) -> (response:
        FetcherResponse)
        ensures
            self.replies(request, reply, response),
    {
        match self {
            Dispatcher::Failed(message) => FetcherResponse::FatalFailure(message.clone()),
            Dispatcher::Serving(fetcher) => fetcher.respond(request, reply),
        }
    }
}

/// The one response that an exchange ends with: the answer given at once,
/// or the answer to the reply of the call.
pub open spec fn outcome(step: Step, answer: FetcherResponse) -> FetcherResponse {
    match step {
        Step::Respond(response) => response,
        Step::Call(_) => answer,
    }
}

/// A working engine answers every request with a response of the variant
/// of that request, whatever the backend call comes to.
pub proof fn lemma_serving_answers_in_kind(
    dispatcher: Dispatcher,
    request: FetcherRequest,
    step: Step,
    reply: BackendReply,
    answer: FetcherResponse,
)
    requires
        dispatcher is Serving,
        dispatcher.steps(request, step),
        step is Call ==> dispatcher.replies(request, reply, answer),
    ensures
        outcome(step, answer).answers(request),
        !(outcome(step, answer) is FatalFailure),
{
}

/// A failed engine answers every request with the fatal failure that
/// carries the words it failed with, and asks for no backend call.
pub proof fn lemma_failed_always_fatal(
    dispatcher: Dispatcher,
    request: FetcherRequest,
    step: Step,
    reply: BackendReply,
    answer: FetcherResponse,
)
    requires
        dispatcher is Failed,
        dispatcher.steps(request, step),
    ensures
        step is Respond,
        outcome(step, answer) == FetcherResponse::FatalFailure(dispatcher->Failed_0),
        dispatcher.replies(request, reply, answer) ==> answer == FetcherResponse::FatalFailure(
            dispatcher->Failed_0,
        ),
{
}


/// The exchanges of a run of the engine: for every request in `requests`
/// the step that the engine took on it and, where the step was a backend
/// call, the reply of the backend and the answer to it.
pub open spec fn served(
    dispatcher: Dispatcher,
    requests: Seq<FetcherRequest>,
    steps: Seq<Step>,
    replies: Seq<BackendReply>,
    answers: Seq<FetcherResponse>,
) -> bool {
    &&& steps.len() == requests.len()
    &&& replies.len() == requests.len()
    &&& answers.len() == requests.len()
    &&& forall|i: int|
        0 <= i < requests.len() ==> dispatcher.steps(#[trigger] requests[i], steps[i]) && (steps[i]
            is Call ==> dispatcher.replies(requests[i], replies[i], answers[i]))
}

/// The responses that a run of the engine ends with, one for each
/// exchange.
pub open spec fn outcomes(steps: Seq<Step>, answers: Seq<FetcherResponse>) -> Seq<FetcherResponse> {
    Seq::new(steps.len(), |i: int| outcome(steps[i], answers[i]))
}

/// An engine answers as many responses as it takes requests, the one at
/// each place answering the request at that place: a working engine with
/// the variant of the request, a failed engine with its fatal failure.
pub proof fn lemma_one_response_per_request(
    dispatcher: Dispatcher,
    requests: Seq<FetcherRequest>,
    steps: Seq<Step>,
    replies: Seq<BackendReply>,
    answers: Seq<FetcherResponse>,
)
    requires
        served(dispatcher, requests, steps, replies, answers),
    ensures
        outcomes(steps, answers).len() == requests.len(),
        dispatcher is Serving ==> forall|i: int|
            0 <= i < requests.len() ==> (#[trigger] outcomes(steps, answers)[i]).answers(
                requests[i],
            ),
        dispatcher matches Dispatcher::Failed(message) ==> forall|i: int|
            0 <= i < requests.len() ==> #[trigger] outcomes(steps, answers)[i]
                == FetcherResponse::FatalFailure(message),
{
    assert forall|i: int| 0 <= i < requests.len() implies {
        &&& dispatcher is Serving ==> (#[trigger] outcomes(steps, answers)[i]).answers(requests[i])
        &&& dispatcher matches Dispatcher::Failed(message) ==> outcomes(steps, answers)[i]
            == FetcherResponse::FatalFailure(message)
    } by {
        assert(dispatcher.steps(requests[i], steps[i]));
        if dispatcher is Serving {
            lemma_serving_answers_in_kind(dispatcher, requests[i], steps[i], replies[i], answers[i]);
        } else {
            lemma_failed_always_fatal(dispatcher, requests[i], steps[i], replies[i], answers[i]);
        }
    }
}

} // verus!
