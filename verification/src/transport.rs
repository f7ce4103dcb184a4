//! What a client asks of the sockets that its channels run over.

use vstd::prelude::*;

use crate::config::ClientServiceConfig;

verus! {

/// Options of a socket.
#[derive(Clone, Copy, Debug, PartialEq, Eq, Structural)]
pub struct SocketOpts {
    /// Whether packets are sent without waiting for more; none to leave it as it is.
    pub nodelay: Option<bool>,
}

impl SocketOpts {
    /// Commands are short and should not wait for more.
    pub fn for_control_channel() -> (r: SocketOpts)
        ensures
            r.nodelay == Some(true),
    {
        SocketOpts { nodelay: Some(true) }
    }

    /// What a service asks of its data channels.
    pub fn from_client_cfg(service: &ClientServiceConfig) -> (r: SocketOpts)
        ensures
            r.nodelay == service.nodelay,
    {
        SocketOpts { nodelay: service.nodelay }
    }
}

} // verus!
