//! Verified core of the coral toolkit: log record model and framing,
//! connection-pool state machines, runtime configuration checks and
//! assorted parsers used by the proxy.

pub mod text;
pub mod record;
pub mod conn;
pub mod http_pool;
pub mod proxy_pool;
pub mod frame;
pub mod runtime;
pub mod proto;
pub mod stdlog;
pub mod conf;
pub mod util;
pub mod discover;
pub mod midware;
pub mod captcha;
pub mod db;
pub mod cli;
pub mod trace_log;
pub mod envconf;
pub mod relay;
pub mod data;
pub mod wasm;
pub mod tls;
