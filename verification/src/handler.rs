//! The backend handler: the facade of the directory's operations.

use crate::model::Configuration;
use vstd::prelude::*;

verus! {

/// The handler of the directory's operations. It holds the configuration and
/// the handle of the database that the statements are run against.
#[derive(Debug, Clone)]
pub struct SqlBackendHandler<Pool> {
    config: Configuration,
    sql_pool: Pool,
}

impl<Pool> SqlBackendHandler<Pool> {
    /// The configuration of the handler.
    pub closed spec fn configuration(&self) -> Configuration {
        self.config
    }

    /// The database handle of the handler.
    pub closed spec fn pool(&self) -> Pool {
        self.sql_pool
    }

    /// A handler that holds `config` and `sql_pool`.
    pub fn new(config: Configuration, sql_pool: Pool) -> (handler: Self)
        ensures
            handler.configuration() == config,
            handler.pool() == sql_pool,
    {
        SqlBackendHandler { config, sql_pool }
    }

    /// The configuration of the handler.
    pub fn config(&self) -> (config: &Configuration)
        ensures
            *config == self.configuration(),
    {
        &self.config
    }

    /// The database handle of the handler.
    pub fn sql_pool(&self) -> (sql_pool: &Pool)
        ensures
            *sql_pool == self.pool(),
    {
        &self.sql_pool
    }
}

} // verus!
