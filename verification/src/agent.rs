//! The agent: the config and the pool that calls share.

use crate::config::{Config, RequestLevelConfig};
use crate::pool::{Connection, Pool};
use vstd::prelude::*;

verus! {

/// The long-lived context of calls: a config, and the pool of the idle
/// connections that were made under it. `T` is the transport of a
/// connection.
pub struct Agent<T> {
    config: Config,
    pool: Pool<T>,
}

impl<T> Agent<T> {
    /// The agent's config.
    pub closed spec fn config_view(self) -> Config {
        self.config
    }

    /// The agent's pool.
    pub closed spec fn pool_view(self) -> Pool<T> {
        self.pool
    }

    /// An agent with `config` and an empty pool that has the caps and the
    /// age bound of `config`.
    pub fn new_with_config(config: Config) -> (r: Self)
        ensures
            r.config_view() == config,
            r.pool_view().idle() == Seq::<Connection<T>>::empty(),
            r.pool_view().max_idle() == config.max_idle_connections,
            r.pool_view().per_host() == config.max_idle_connections_per_host,
            r.pool_view().max_age() == crate::time::duration_nanos(config.max_idle_age),
            r.pool_view().wf(),
    {
        let pool = Pool::new(&config);
        Agent { config, pool }
    }

    /// The agent's config.
    pub fn config(&self) -> (r: &Config)
        ensures
            *r == self.config_view(),
    {
        &self.config
    }

    /// The agent's pool, to acquire from and release to.
    pub fn pool(&mut self) -> (r: &mut Pool<T>)
        ensures
            *r == old(self).pool_view(),
            final(self).pool_view() == *final(r),
            final(self).config_view() == old(self).config_view(),
    {
        &mut self.pool
    }

    /// The config of a request, before the request overrides anything: a
    /// copy of the agent's.
    pub fn new_request_level_config(&self) -> (r: RequestLevelConfig)
        ensures
            r.0 == self.config_view(),
    {
        RequestLevelConfig(self.config.clone())
    }
}

impl Config {
    /// Creates a new agent by cloning this config.
    pub fn new_agent<T>(&self) -> (r: Agent<T>)
        ensures
            r.config_view() == *self,
            r.pool_view().idle() == Seq::<Connection<T>>::empty(),
            r.pool_view().max_idle() == self.max_idle_connections,
            r.pool_view().per_host() == self.max_idle_connections_per_host,
            r.pool_view().max_age() == crate::time::duration_nanos(self.max_idle_age),
            r.pool_view().wf(),
    {
        Agent::new_with_config(self.clone())
    }
}

} // verus!
