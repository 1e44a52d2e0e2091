//! Settings and samples of the connection-pool backend.

use vstd::prelude::*;

verus! {

/// Where the management beans are read from, and for which pool.
#[derive(Debug, PartialEq, Eq)]
pub struct JMXConnectionSettings {
    pub address: String,
    pub username: Option<String>,
    pub password: Option<String>,
    pub db_pool_name: String,
}

impl Clone for JMXConnectionSettings {
    fn clone(&self) -> (res: Self)
        ensures
            res == *self,
    {
        JMXConnectionSettings {
            address: self.address.clone(),
            username: match &self.username {
                Some(u) => Some(u.clone()),
                None => None,
            },
            password: match &self.password {
                Some(p) => Some(p.clone()),
                None => None,
            },
            db_pool_name: self.db_pool_name.clone(),
        }
    }
}

/// Load of the query executor at one poll.
#[derive(Debug, PartialEq, Eq, Clone, Copy, Structural)]
pub struct SlickMetrics {
    pub active_threads: i32,
    pub queue_size: i32,
}

/// Static limits of the query executor.
#[derive(Debug, PartialEq, Eq, Clone, Copy, Structural)]
pub struct SlickConfig {
    pub max_threads: i32,
    pub max_queue_size: i32,
}

/// State of the connection pool at one poll.
#[derive(Debug, PartialEq, Eq, Clone, Copy, Structural)]
pub struct HikariMetrics {
    pub total: i32,
    pub active: i32,
    pub idle: i32,
    pub waiting: i32,
}

} // verus!
