//! The console server's configuration: where the console listens and where
//! the engine is reached. The HTTP file server consuming it is an external
//! collaborator; this crate only carries the values.

use vstd::prelude::*;

verus! {

/// Server configuration.
pub struct ServerConfig {
    pub port: u16,
    pub host: String,
    pub engine_host: String,
    pub engine_port: u16,
    pub ws_port: u16,
    pub enable_flow: bool,
}

} // verus!
