//! Process configuration: the public base URL used to build retrieval
//! links and the connection string of the external key-value store.
//! Built once at startup from the optional environment overrides and
//! read-only thereafter; reading the environment itself is the caller's
//! concern, this module only applies the defaults.
use vstd::prelude::*;

verus! {

/// The configuration the service runs with, immutable after startup.
pub struct Config {
    /// Public base URL under which stored pastes can be retrieved.
    pub host: String,
    /// Connection string for the external key-value store.
    pub redis_url: String,
}

/// The base URL used when no override is configured.
pub fn default_host() -> (r: String)
    ensures
        r@ == "http://localhost:8000"@,
{
    "http://localhost:8000".to_owned()
}

/// The store connection string used when no override is configured.
pub fn default_redis_url() -> (r: String)
    ensures
        r@ == "redis://127.0.0.1/"@,
{
    "redis://127.0.0.1/".to_owned()
}

/// Builds the configuration from the optional overrides, falling back to
/// the defaults where none is given.
pub fn load_config(host: Option<String>, redis_url: Option<String>) -> (c: Config)
    ensures
        c.host@ == match host {
            Some(h) => h@,
            None => "http://localhost:8000"@,
        },
        c.redis_url@ == match redis_url {
            Some(u) => u@,
            None => "redis://127.0.0.1/"@,
        },
{
    let host = match host {
        Some(h) => h,
        None => default_host(),
    };
    let redis_url = match redis_url {
        Some(u) => u,
        None => default_redis_url(),
    };
    Config { host, redis_url }
}

} // verus!
