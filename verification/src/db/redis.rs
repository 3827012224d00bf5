//! Where the key-value store is found and how the connection pool is made.
//!
//! Nothing here reads the environment or keeps a global: the caller passes
//! what it found in the environment and keeps the pool it gets back.

use vstd::prelude::*;
use vstd::string::StringExecFns;

use deadpool_redis::Config;
use deadpool_redis::Pool;
use deadpool_redis::Runtime;

verus! {

/// Host and port of the key-value store.
#[derive(Debug, Clone, PartialEq, Eq)]
pub struct RedisConfig {
    pub host: String,
    pub port: String,
}

/// A pool of connections to the key-value store. The pool is a
/// `deadpool_redis::Pool`; it is kept out of the verifier's sight, and
/// nothing is known of it here but that it was made.
#[verifier::external_body]
pub struct RedisPool {
    pub pool: Pool,
}

/// Why no pool could be made.
#[derive(Clone, Copy, Debug, PartialEq, Eq, Structural)]
pub enum RedisInitError {
    /// The address does not make a URL that the store's client accepts.
    InvalidAddress,
}

/// The host that is used where none is given.
pub open spec fn default_host() -> Seq<char> {
    "jetson.local"@
}

/// The port that is used where none is given.
pub open spec fn default_port() -> Seq<char> {
    "6379"@
}

/// The URL under which the store is reached: `redis://host:port`.
pub open spec fn url_of(host: Seq<char>, port: Seq<char>) -> Seq<char> {
    "redis://"@ + host + ":"@ + port
}

/// The host that a configuration gets from what the environment holds.
pub open spec fn host_from(addr: Option<String>) -> Seq<char> {
    match addr {
        Some(host) => host@,
        None => default_host(),
    }
}

/// The port that a configuration gets from what the environment holds.
pub open spec fn port_from(port: Option<String>) -> Seq<char> {
    match port {
        Some(port) => port@,
        None => default_port(),
    }
}

/// Whether the outside crates make a pool for this URL: whether
/// `deadpool_redis::Config::from_url(url).create_pool(..)` returns `Ok`.
pub uninterp spec fn pool_url_accepted(url: Seq<char>) -> bool;

/// Makes a pool for `url` through `deadpool_redis::Config::from_url` and
/// `Config::create_pool` with the Tokio runtime. No connection is opened yet.
/// Whether a pool comes back depends on the URL alone: the client parses it
/// and refuses what it cannot use, and with a runtime given and no timeouts
/// set the builder has nothing to refuse. Only `redis://` URLs are passed,
/// which are read the same on every platform.
#[verifier::external_body]
fn create_pool(url: &str) -> (r: Result<RedisPool, RedisInitError>)
    requires
        "redis://"@.is_prefix_of(url@),
    ensures
        r is Ok <==> pool_url_accepted(url@),
{
    match Config::from_url(url).create_pool(Some(Runtime::Tokio1)) {
        Ok(pool) => Ok(RedisPool { pool }),
        Err(_) => Err(RedisInitError::InvalidAddress),
    }
}

/// The configuration for what the environment holds: the two values where
/// they are set, `jetson.local` and `6379` where they are not.
pub fn get_cfg(addr: Option<String>, port: Option<String>) -> (cfg: RedisConfig)
    ensures
        cfg.host@ == host_from(addr),
        cfg.port@ == port_from(port),
{
    let host = match addr {
        Some(host) => host,
        None => String::from_str("jetson.local"),
    };
    let port = match port {
        Some(port) => port,
        None => String::from_str("6379"),
    };
    RedisConfig { host, port }
}

/// The URL of the store that `config` names.
pub fn redis_url(config: &RedisConfig) -> (url: String)
    ensures
        url@ == url_of(config.host@, config.port@),
{
    let mut url = String::from_str("redis://");
    url.append(config.host.as_str());
    url.append(":");
    url.append(config.port.as_str());
    url
}

/// Makes the connection pool for the store that `config` names. It fails,
/// and only then, where the URL of the store is not accepted.
pub fn init_redis(config: RedisConfig) -> (r: Result<RedisPool, RedisInitError>)
    ensures
        r is Ok <==> pool_url_accepted(url_of(config.host@, config.port@)),
{
    let url = redis_url(&config);
    proof {
        let scheme = "redis://"@;
        let rest = config.host@ + ":"@ + config.port@;
        assert(url@ == scheme + rest);
        assert((scheme + rest).subrange(0, scheme.len() as int) == scheme);
    }
    create_pool(url.as_str())
}

/// Makes the connection pool for the store that the environment names:
/// `addr` and `port` are what the variables `REMOTE_REDIS_ADDR` and
/// `REMOTE_REDIS_PORT` hold, `None` where one is not set.
pub fn init_redis_with_env(addr: Option<String>, port: Option<String>) -> (r: Result<
    RedisPool,
    RedisInitError,
>)
    ensures
        r is Ok <==> pool_url_accepted(url_of(host_from(addr), port_from(port))),
{
    let cfg = get_cfg(addr, port);
    init_redis(cfg)
}

} // verus!
