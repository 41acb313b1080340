//! Application configuration.
//!
//! Addresses, log level and the flags that choose which transports to
//! start.  Loading from a file or the environment happens outside the
//! library; the decisions over the loaded values are made here.

use vstd::prelude::*;

verus! {

/// Configuration error: a configuration that enables no server at all
/// cannot be run.
#[derive(Clone, Copy, PartialEq, Eq, Structural, Debug)]
pub enum ConfigError {
    NoServersEnabled,
}

/// Application configuration for the collaboration server.
pub struct AppConfig {
    /// HTTP server address in the form "[host]:port".
    pub http_addr: String,
    /// RPC server address in the form "[host]:port".
    pub grpc_addr: String,
    /// Log level: trace, debug, info, warn or error.
    pub log_level: String,
    /// Whether the HTTP/socket transport is started.
    pub enable_http: bool,
    /// Whether the streaming RPC transport is started.
    pub enable_grpc: bool,
}

impl Default for AppConfig {
    /// Sensible defaults: both transports enabled, info-level logging.
    fn default() -> (r: Self)
        ensures
            r.http_addr@ == "[::]:8080"@,
            r.grpc_addr@ == "[::]:8081"@,
            r.log_level@ == "info"@,
            r.enable_http,
            r.enable_grpc,
    {
        AppConfig {
            http_addr: String::from_str("[::]:8080"),
            grpc_addr: String::from_str("[::]:8081"),
            log_level: String::from_str("info"),
            enable_http: true,
            enable_grpc: true,
        }
    }
}

impl AppConfig {
    /// Which transports to start: both flags as configured, or an error
    /// when the configuration enables none.
    pub fn servers_to_start(&self) -> (r: Result<(bool, bool), ConfigError>)
        ensures
            r is Ok <==> (self.enable_http || self.enable_grpc),
            r matches Ok(p) ==> p.0 == self.enable_http && p.1 == self.enable_grpc,
            r is Err ==> r == Err::<(bool, bool), ConfigError>(ConfigError::NoServersEnabled),
    {
        if self.enable_http || self.enable_grpc {
            Ok((self.enable_http, self.enable_grpc))
        } else {
            Err(ConfigError::NoServersEnabled)
        }
    }
}

} // verus!
