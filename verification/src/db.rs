//! Database and cache configuration: the PostgreSQL pool and connection
//! options, and the Redis connection settings.

use vstd::prelude::*;
use std::str::FromStr;
use crate::util::ascii_lowercase;

verus! {

/// How slow statements are logged.
pub struct LogSettings {
    pub statements_level: String,
    pub slow_statements_level: String,
    pub slow_statements_duration: u64,
}

/// How much of the statement log is kept, as `log` names the filters.
#[derive(Clone, Copy, Debug, PartialEq, Eq, Structural)]
pub enum LevelFilter {
    Off,
    Error,
    Warn,
    Info,
    Debug,
    Trace,
}

/// The filter named by `s`, compared without regard to ASCII case, as
/// `log::LevelFilter::from_str` reads it.
pub open spec fn named_filter(s: Seq<char>) -> Option<LevelFilter> {
    let l = ascii_lowercase(s);
    if l == "off"@ {
        Some(LevelFilter::Off)
    } else if l == "error"@ {
        Some(LevelFilter::Error)
    } else if l == "warn"@ {
        Some(LevelFilter::Warn)
    } else if l == "info"@ {
        Some(LevelFilter::Info)
    } else if l == "debug"@ {
        Some(LevelFilter::Debug)
    } else if l == "trace"@ {
        Some(LevelFilter::Trace)
    } else {
        None
    }
}

/// Reads a level filter with `log::LevelFilter::from_str`, which compares
/// the text with `OFF`, `ERROR`, `WARN`, `INFO`, `DEBUG` and `TRACE` by
/// `eq_ignore_ascii_case`; `None` for any other text.
#[verifier::external_body]
fn parse_level_filter(s: &str) -> (res: Option<LevelFilter>)
    ensures
        res == named_filter(s@),
{
    match log::LevelFilter::from_str(s) {
        Ok(log::LevelFilter::Off) => Some(LevelFilter::Off),
        Ok(log::LevelFilter::Error) => Some(LevelFilter::Error),
        Ok(log::LevelFilter::Warn) => Some(LevelFilter::Warn),
        Ok(log::LevelFilter::Info) => Some(LevelFilter::Info),
        Ok(log::LevelFilter::Debug) => Some(LevelFilter::Debug),
        Ok(log::LevelFilter::Trace) => Some(LevelFilter::Trace),
        Err(_) => None,
    }
}

/// Why database options could not be used.
#[derive(Clone, Copy, Debug, PartialEq, Eq, Structural)]
pub enum DbError {
    /// A log level in the options names no level filter.
    InvalidLevel,
}

/// PostgreSQL connection options.
pub struct PgConnectOptions {
    pub host: String,
    pub port: u16,
    pub socket: Option<String>,
    pub username: String,
    pub password: Option<String>,
    pub database: Option<String>,
    pub ssl_mode: String,
    pub ssl_root_cert: Option<String>,
    pub ssl_client_cert: Option<String>,
    pub ssl_client_key: Option<String>,
    pub statement_cache_capacity: Option<usize>,
    pub application_name: Option<String>,
    pub log_settings: Option<LogSettings>,
}

/// Connection pool options.
pub struct PoolOptions {
    pub test_before_acquire: Option<bool>,
    pub max_connections: Option<u32>,
    pub acquire_time_level: Option<String>,
    pub acquire_slow_level: Option<String>,
    pub acquire_slow_threshold: Option<u64>,
    pub acquire_timeout: Option<u64>,
    pub min_connections: Option<u32>,
    pub max_lifetime: Option<u64>,
    pub idle_timeout: Option<u64>,
    pub fair: Option<bool>,
}

impl LogSettings {
    /// The filters for the statement log and the slow-statement log,
    /// read from their configured names.
    pub fn filters(&self) -> (res: Result<(LevelFilter, LevelFilter), DbError>)
        ensures
            match res {
                Ok((a, b)) => named_filter(self.statements_level@) == Some(a) && named_filter(
                    self.slow_statements_level@,
                ) == Some(b),
                Err(e) => e == DbError::InvalidLevel && (named_filter(self.statements_level@) is None
                    || named_filter(self.slow_statements_level@) is None),
            },
    {
        let a = match parse_level_filter(self.statements_level.as_str()) {
            Some(a) => a,
            None => {
                return Err(DbError::InvalidLevel);
            },
        };
        let b = match parse_level_filter(self.slow_statements_level.as_str()) {
            Some(b) => b,
            None => {
                return Err(DbError::InvalidLevel);
            },
        };
        Ok((a, b))
    }
}

/// The filter an optional level name sets, when it names one.
pub open spec fn optional_filter(name: Option<String>) -> Option<Option<LevelFilter>> {
    match name {
        None => Some(None),
        Some(n) => match named_filter(n@) {
            Some(f) => Some(Some(f)),
            None => None,
        },
    }
}

/// Reads an optional level name.
fn read_optional_filter(name: &Option<String>) -> (res: Result<Option<LevelFilter>, DbError>)
    ensures
        match res {
            Ok(f) => optional_filter(*name) == Some(f),
            Err(e) => e == DbError::InvalidLevel && optional_filter(*name) is None,
        },
{
    match name {
        None => Ok(None),
        Some(n) => match parse_level_filter(n.as_str()) {
            Some(f) => Ok(Some(f)),
            None => Err(DbError::InvalidLevel),
        },
    }
}

impl PoolOptions {
    /// The filters for the acquire-time log and the slow-acquire log, when
    /// configured.
    pub fn filters(&self) -> (res: Result<(Option<LevelFilter>, Option<LevelFilter>), DbError>)
        ensures
            match res {
                Ok((a, b)) => optional_filter(self.acquire_time_level) == Some(a) && optional_filter(
                    self.acquire_slow_level,
                ) == Some(b),
                Err(e) => e == DbError::InvalidLevel && (optional_filter(self.acquire_time_level) is None
                    || optional_filter(self.acquire_slow_level) is None),
            },
    {
        let a = read_optional_filter(&self.acquire_time_level)?;
        let b = read_optional_filter(&self.acquire_slow_level)?;
        Ok((a, b))
    }
}

/// The database section of the configuration.
pub struct DbConf {
    pub pool: Option<PoolOptions>,
    pub postgres: Option<PgConnectOptions>,
}

impl DbConf {
    /// The pool and connection options a PostgreSQL pool is opened with;
    /// `None` (no pool) unless both are configured.
    pub fn postgres_options(&self) -> (res: Option<(&PoolOptions, &PgConnectOptions)>)
        ensures
            match res {
                Some((p, c)) => self.pool == Some(*p) && self.postgres == Some(*c),
                None => self.pool is None || self.postgres is None,
            },
    {
        match (&self.pool, &self.postgres) {
            (Some(p), Some(c)) => Some((p, c)),
            _ => None,
        }
    }
}

/// Client certificates for a TLS connection to Redis.
pub struct RedisTls {
    pub root_cert_store: Option<String>,
    pub client_cert: Option<String>,
    pub client_key: Option<String>,
}

/// Reconnection settings of a managed Redis connection.
pub struct RedisConnManagerConf {
    pub exponent_base: Option<u64>,
    /// A multiplicative factor applied to the retry delay.
    pub factor: Option<u64>,
    /// How many times to retry, with an exponentially growing delay.
    pub number_of_retries: Option<usize>,
    /// The longest delay between attempts, in milliseconds.
    pub max_delay: Option<u64>,
    /// Time out operations after this many seconds.
    pub response_timeout: Option<u64>,
    /// Time out each connection attempt after this many seconds.
    pub connection_timeout: Option<u64>,
}

/// How a single Redis server is connected to.
pub enum RedisSingleConf {
    Manager(RedisConnManagerConf),
}

/// A single Redis server.
pub struct RedisSingle {
    pub host: String,
    pub port: u16,
    pub insecure: bool,
    pub tls_params: Option<RedisTls>,
    pub db: Option<i64>,
    pub username: Option<String>,
    pub password: Option<String>,
    pub protocol: Option<u16>,
    pub config: RedisSingleConf,
}

/// Retry settings of a Redis cluster.
pub struct RedisRetryParams {
    pub number_of_retries: u32,
    pub max_wait_time: u64,
    pub min_wait_time: u64,
    pub exponent_base: u64,
    pub factor: u64,
}

/// A Redis cluster.
pub struct RedisCluster {
    pub password: Option<String>,
    pub username: Option<String>,
    pub read_from_replicas: Option<bool>,
    pub insecure: bool,
    pub retry_params: Option<RedisRetryParams>,
    pub tls_params: Option<RedisTls>,
    pub connection_timeout: Option<u64>,
    pub response_timeout: Option<u64>,
    pub protocol: Option<u16>,
}

/// The Redis section of the configuration.
pub enum RedisConf {
    Single(RedisSingle),
    Cluster(RedisCluster),
}

/// The Redis protocol spoken.
#[derive(Clone, Copy, Debug, PartialEq, Eq, Structural)]
pub enum ProtocolVersion {
    Resp2,
    Resp3,
}

/// The protocol a configured protocol number selects: 1 selects RESP3,
/// anything else (or nothing) RESP2.
pub open spec fn protocol_of(p: Option<u16>) -> ProtocolVersion {
    match p {
        Some(x) => if x == 1 {
            ProtocolVersion::Resp3
        } else {
            ProtocolVersion::Resp2
        },
        None => ProtocolVersion::Resp2,
    }
}

/// What a Redis connection is opened with.
pub struct RedisConnInfo {
    pub db: i64,
    pub username: Option<String>,
    pub password: Option<String>,
    pub protocol: ProtocolVersion,
}

/// Where a single Redis server is reached.
pub enum RedisAddr {
    /// Plain TCP.
    Tcp { host: String, port: u16 },
    /// TCP with TLS.
    TcpTls { host: String, port: u16, insecure: bool },
}

impl RedisSingle {
    /// The connection settings: the configured database (0 by default),
    /// user name, password and protocol.
    pub fn connection_info(&self) -> (res: RedisConnInfo)
        ensures
            res.db == match self.db {
                Some(d) => d,
                None => 0,
            },
            res.username == self.username,
            res.password == self.password,
            res.protocol == protocol_of(self.protocol),
    {
        let db = match self.db {
            Some(d) => d,
            None => 0,
        };
        let protocol = match self.protocol {
            Some(x) => if x == 1 {
                ProtocolVersion::Resp3
            } else {
                ProtocolVersion::Resp2
            },
            None => ProtocolVersion::Resp2,
        };
        RedisConnInfo {
            db,
            username: self.username.clone(),
            password: self.password.clone(),
            protocol,
        }
    }

    /// The address: with TLS when TLS parameters are configured.
    pub fn connection_addr(&self) -> (res: RedisAddr)
        ensures
            match res {
                RedisAddr::Tcp { host, port } => self.tls_params is None && host@ == self.host@
                    && port == self.port,
                RedisAddr::TcpTls { host, port, insecure } => self.tls_params is Some && host@
                    == self.host@ && port == self.port && insecure == self.insecure,
            },
    {
        match &self.tls_params {
            Some(_) => RedisAddr::TcpTls {
                host: self.host.clone(),
                port: self.port,
                insecure: self.insecure,
            },
            None => RedisAddr::Tcp { host: self.host.clone(), port: self.port },
        }
    }
}

} // verus!
