//! The server value that the acceptor runs from.

use vstd::prelude::*;

use crate::config::Config;

verus! {

/// A server over one configuration.
pub struct Server {
    config: Config,
}

impl Server {
    /// A server for `config`.
    pub fn new(config: Config) -> (r: Server)
        ensures
            r.spec_config() == config,
    {
        Server { config }
    }

    /// The configuration the server was made with.
    pub closed spec fn spec_config(&self) -> Config {
        self.config
    }

    /// The configuration the server was made with.
    pub fn config(&self) -> (r: &Config)
        ensures
            *r == self.spec_config(),
    {
        &self.config
    }
}

} // verus!
