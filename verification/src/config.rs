//! The client's configuration, and the changes that can be made to it while the
//! client runs.

use vstd::prelude::*;

use crate::table::Table;

verus! {

/// What a service carries.
#[derive(Clone, Copy, Debug, PartialEq, Eq, Structural)]
pub enum ServiceType {
    Tcp,
    Udp,
}

/// What the control channels run over.
#[derive(Clone, Copy, Debug, PartialEq, Eq, Structural)]
pub enum TransportType {
    Tcp,
    Tls,
    Noise,
    Quic,
}

/// A `[client.services.<name>]` block.
#[derive(Debug)]
pub struct ClientServiceConfig {
    pub service_type: ServiceType,
    pub name: String,
    pub local_addr: String,
    pub token: Option<String>,
    /// Whether the service's packets are sent without waiting for more; none to
    /// leave that as it is.
    pub nodelay: Option<bool>,
}

impl Clone for ClientServiceConfig {
    fn clone(&self) -> (r: Self)
        ensures
            r == *self,
    {
        ClientServiceConfig {
            service_type: self.service_type,
            name: self.name.clone(),
            local_addr: self.local_addr.clone(),
            token: match &self.token {
                Some(token) => Some(token.clone()),
                None => None,
            },
            nodelay: self.nodelay,
        }
    }
}

/// The `[client]` block.
pub struct ClientConfig {
    pub remote_addr: String,
    pub transport_type: TransportType,
    /// How many seconds may pass without a word from the server; 0 for any number.
    pub heartbeat_timeout: u64,
    pub services: Table<String, ClientServiceConfig>,
}

/// The configuration file, as far as a client reads it.
pub struct Config {
    pub client: Option<ClientConfig>,
}

/// A change to the services of a client.
pub enum ClientServiceChange {
    Add(ClientServiceConfig),
    /// Names the service that goes.
    Delete(String),
}

/// A change to the configuration file.
pub enum ConfigChange {
    ClientChange(ClientServiceChange),
    /// A change that does not concern a client, in words.
    Other(String),
}

} // verus!
