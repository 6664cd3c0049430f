//! Application configuration.
//!
//! The values a deployment chooses: the two ports, the bind address, and the
//! store capacity. Parsing these from the command line, and turning them
//! into socket addresses, is the launcher's business, not the library's.

use vstd::prelude::*;

verus! {

/// Application configuration.
#[derive(Debug, Clone, PartialEq)]
pub struct Config {
    /// UDP port to listen on for GELF messages.
    pub udp_port: u16,
    /// HTTP port for the web service.
    pub http_port: u16,
    /// Maximum number of log messages kept in memory.
    pub max_messages: usize,
    /// Bind address for both listeners.
    pub bind_address: String,
}

impl Default for Config {
    /// The stock configuration: GELF on 12201, HTTP on 8080, ten thousand
    /// retained messages, bound on every interface.
    fn default() -> (r: Self)
        ensures
            r.udp_port == 12201,
            r.http_port == 8080,
            r.max_messages == 10000,
            r.bind_address@ == "0.0.0.0"@,
    {
        Config {
            udp_port: 12201,
            http_port: 8080,
            max_messages: 10000,
            bind_address: "0.0.0.0".to_owned(),
        }
    }
}

} // verus!
