//! Configuration for reaching the remote time-tracking service.

use vstd::prelude::*;
use vstd::string::StringExecFns;

verus! {

/// Base URL used when a configuration carries an empty one.
pub const DEFAULT_BASE_URL: &'static str = "https://hackatime.hackclub.com";

/// Where the remote service lives.
#[derive(Debug, Clone)]
pub struct ApiConfig {
    pub base_url: String,
}

impl ApiConfig {
    /// A configuration pointing at the default service.
    pub fn new() -> (c: Self)
        ensures
            c.base_url@ == DEFAULT_BASE_URL@,
    {
        Self { base_url: String::from_str(DEFAULT_BASE_URL) }
    }
}

impl Default for ApiConfig {
    /// Same configuration as `new`.
    fn default() -> (c: Self)
        ensures
            c.base_url@ == DEFAULT_BASE_URL@,
    {
        ApiConfig::new()
    }
}

/// The base URL a request should actually use: an empty configured URL
/// falls back to the default service.
pub fn effective_base_url(cfg: &ApiConfig) -> (s: &str)
    ensures
        s@ == if cfg.base_url@.len() == 0 {
            DEFAULT_BASE_URL@
        } else {
            cfg.base_url@
        },
{
    if cfg.base_url.as_str().is_empty() {
        DEFAULT_BASE_URL
    } else {
        cfg.base_url.as_str()
    }
}

} // verus!
