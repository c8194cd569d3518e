//! The dashboard's configuration: the service API it queries.  It is read
//! once at startup, outside the library, and handed in as plain values.

use vstd::prelude::*;

verus! {

/// Where the remote service API lives.
#[derive(Debug, Clone, PartialEq)]
pub struct ApiConfig {
    pub url: String,
}

/// The whole configuration.
#[derive(Debug, Clone, PartialEq)]
pub struct Config {
    pub api: ApiConfig,
}

impl Config {
    /// Builds a configuration around an API base address.
    pub fn new(url: String) -> (r: Self)
        ensures
            r.api.url@ == url@,
    {
        Config { api: ApiConfig { url } }
    }
}

} // verus!
