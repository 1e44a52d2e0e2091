//! Names of the beans and attributes that hold the pool gauges, and the
//! assembly of samples from the values read.

use vstd::prelude::*;
use vstd::string::*;
use crate::jmx::model::{HikariMetrics, SlickConfig, SlickMetrics};

verus! {

/// Reads the gauges of one connection pool. The client names the beans
/// and attributes and assembles the samples; the transport hands it the
/// values.
#[derive(Debug, PartialEq, Eq)]
pub struct JMXClient {
    pub db_pool_name: String,
}

pub open spec fn slick_bean_prefix() -> Seq<char> {
    "slick:type=AsyncExecutor,name="@
}

pub open spec fn hikari_bean_prefix() -> Seq<char> {
    "com.zaxxer.hikari:type=Pool ("@
}

/// Name of the bean of the query executor of `pool`.
pub open spec fn slick_bean(pool: Seq<char>) -> Seq<char> {
    slick_bean_prefix() + pool
}

/// Name of the bean of the connection pool `pool`.
pub open spec fn hikari_bean(pool: Seq<char>) -> Seq<char> {
    hikari_bean_prefix() + pool + seq![')']
}

impl JMXClient {
    pub fn new(db_pool_name: String) -> (client: JMXClient)
        ensures
            client.db_pool_name == db_pool_name,
    {
        JMXClient { db_pool_name }
    }

    /// Name of the bean that holds the executor gauges.
    pub fn slick_bean_name(&self) -> (name: String)
        ensures
            name@ == slick_bean(self.db_pool_name@),
    {
        let mut name = "slick:type=AsyncExecutor,name=".to_owned();
        name.append(self.db_pool_name.as_str());
        name
    }

    /// Name of the bean that holds the pool gauges.
    pub fn hikari_bean_name(&self) -> (name: String)
        ensures
            name@ == hikari_bean(self.db_pool_name@),
    {
        proof {
            reveal_strlit(")");
        }
        let mut name = "com.zaxxer.hikari:type=Pool (".to_owned();
        name.append(self.db_pool_name.as_str());
        name.append(")");
        assert(name@ =~= hikari_bean(self.db_pool_name@));
        name
    }

    /// The pool gauges, from the attributes `TotalConnections`,
    /// `ActiveConnections`, `ThreadsAwaitingConnection` and
    /// `IdleConnections` in this order: the first failed read is the
    /// error.
    pub fn get_hikari_metrics<E>(
        &self,
        total: Result<i32, E>,
        active: Result<i32, E>,
        waiting: Result<i32, E>,
        idle: Result<i32, E>,
    ) -> (metrics: Result<HikariMetrics, E>)
        ensures
            metrics == match (total, active, waiting, idle) {
                (Ok(total), Ok(active), Ok(waiting), Ok(idle)) => Ok::<HikariMetrics, E>(
                    HikariMetrics { total, active, idle, waiting },
                ),
                (Err(e), _, _, _) => Err(e),
                (Ok(_), Err(e), _, _) => Err(e),
                (Ok(_), Ok(_), Err(e), _) => Err(e),
                (Ok(_), Ok(_), Ok(_), Err(e)) => Err(e),
            },
    {
        let total = match total {
            Ok(v) => v,
            Err(e) => return Err(e),
        };
        let active = match active {
            Ok(v) => v,
            Err(e) => return Err(e),
        };
        let waiting = match waiting {
            Ok(v) => v,
            Err(e) => return Err(e),
        };
        let idle = match idle {
            Ok(v) => v,
            Err(e) => return Err(e),
        };
        Ok(HikariMetrics { total, active, idle, waiting })
    }

    /// The executor gauges, from the attributes `ActiveThreads` and
    /// `QueueSize`: the first failed read is the error.
    pub fn get_slick_metrics<E>(
        &self,
        active_threads: Result<i32, E>,
        queue_size: Result<i32, E>,
    ) -> (metrics: Result<SlickMetrics, E>)
        ensures
            metrics == match (active_threads, queue_size) {
                (Ok(active_threads), Ok(queue_size)) => Ok::<SlickMetrics, E>(
                    SlickMetrics { active_threads, queue_size },
                ),
                (Err(e), _) => Err(e),
                (Ok(_), Err(e)) => Err(e),
            },
    {
        let active_threads = match active_threads {
            Ok(v) => v,
            Err(e) => return Err(e),
        };
        let queue_size = match queue_size {
            Ok(v) => v,
            Err(e) => return Err(e),
        };
        Ok(SlickMetrics { active_threads, queue_size })
    }

    /// The executor limits, from the attributes `MaxThreads` and
    /// `MaxQueueSize`: the first failed read is the error.
    pub fn get_slick_config<E>(
        &self,
        max_threads: Result<i32, E>,
        max_queue_size: Result<i32, E>,
    ) -> (config: Result<SlickConfig, E>)
        ensures
            config == match (max_threads, max_queue_size) {
                (Ok(max_threads), Ok(max_queue_size)) => Ok::<SlickConfig, E>(
                    SlickConfig { max_threads, max_queue_size },
                ),
                (Err(e), _) => Err(e),
                (Ok(_), Err(e)) => Err(e),
            },
    {
        let max_threads = match max_threads {
            Ok(v) => v,
            Err(e) => return Err(e),
        };
        let max_queue_size = match max_queue_size {
            Ok(v) => v,
            Err(e) => return Err(e),
        };
        Ok(SlickConfig { max_threads, max_queue_size })
    }
}

} // verus!
