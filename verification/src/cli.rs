//! Command-line options of the proxy.

use vstd::prelude::*;
use crate::conf::{LogConf, TlsConf};
use crate::discover::DiscoverParam;
use crate::runtime::RuntimeParam;

verus! {

/// The server options.
#[derive(Clone, Copy, Debug, PartialEq, Eq, Structural)]
pub struct ServerParam {
    /// The port of the HTTP/2 server; HTTP/3 listens on the next one.
    pub port: u16,
}

impl ServerParam {
    /// The port the HTTP/3 server listens on: the one after the HTTP/2 port.
    pub fn h3_port(&self) -> (res: u16)
        requires
            self.port < u16::MAX,
        ensures
            res == self.port + 1,
    {
        self.port + 1
    }
}

/// All options of the proxy.
pub struct Cli {
    pub server_param: ServerParam,
    pub tls_param: TlsConf,
    pub log_param: LogConf,
    pub runtime_param: RuntimeParam,
    pub discover_param: DiscoverParam,
    /// The file listing the backends to connect to.
    pub conn_conf: Option<String>,
}

/// One backend the proxy connects to.
pub struct ConnConf {
    pub ip: String,
    pub port: u16,
    pub domain: String,
    pub ca: Option<String>,
    pub cert: String,
    pub key: String,
}

} // verus!
