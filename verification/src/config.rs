use vstd::prelude::*;

verus! {

/// Settings the consumer hands to the acceptor: the address to bind and
/// advisory limits whose enforcement lives outside this library.
pub struct ServerConfig {
    /// Host to bind to (e.g., "127.0.0.1", "0.0.0.0").
    pub host: String,
    /// Port to listen on.
    pub port: u16,
    /// Maximum number of concurrent connections (advisory).
    pub max_connections: usize,
    /// Request timeout in milliseconds.
    pub request_timeout_ms: u64,
    /// Keep-alive timeout in milliseconds.
    pub keep_alive_timeout_ms: u64,
}

impl Default for ServerConfig {
    /// The default configuration binds the loopback interface on port 4000.
    fn default() -> (c: ServerConfig)
        ensures
            c.host@ == "127.0.0.1"@,
            c.port == 4000,
            c.max_connections == 100000,
            c.request_timeout_ms == 30000,
            c.keep_alive_timeout_ms == 60000,
    {
        ServerConfig {
            host: "127.0.0.1".to_owned(),
            port: 4000,
            max_connections: 100000,
            request_timeout_ms: 30000,
            keep_alive_timeout_ms: 60000,
        }
    }
}

} // verus!
