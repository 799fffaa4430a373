//! Node configuration: the three service ports and the key-material path.
//! Loading and parsing the configuration file happens outside the library;
//! the loaded values arrive here as plain fields.

use vstd::prelude::*;

verus! {

/// Port used for a service when the configuration leaves it unset.
pub const DEFAULT_PORT: u16 = 5000;

/// Immutable node configuration: optional ports for the node's own server
/// and the two downstream services, and the path to the node's key material.
pub struct ConsensusConfig {
    pub grpc_server_port: Option<u16>,
    pub utxo_grpc_port: Option<u16>,
    pub network_grpc_port: Option<u16>,
    pub privkey_path: String,
}

impl ConsensusConfig {
    /// The port the node's own server binds, with the default applied.
    pub fn server_port(&self) -> (r: u16)
        ensures
            r == match self.grpc_server_port {
                Some(p) => p,
                None => DEFAULT_PORT,
            },
    {
        match self.grpc_server_port {
            Some(p) => p,
            None => DEFAULT_PORT,
        }
    }

    /// The transaction service's port, with the default applied.
    pub fn utxo_port(&self) -> (r: u16)
        ensures
            r == match self.utxo_grpc_port {
                Some(p) => p,
                None => DEFAULT_PORT,
            },
    {
        match self.utxo_grpc_port {
            Some(p) => p,
            None => DEFAULT_PORT,
        }
    }

    /// The network service's port, with the default applied.
    pub fn network_port(&self) -> (r: u16)
        ensures
            r == match self.network_grpc_port {
                Some(p) => p,
                None => DEFAULT_PORT,
            },
    {
        match self.network_grpc_port {
            Some(p) => p,
            None => DEFAULT_PORT,
        }
    }
}

} // verus!
