//! Laws of socket options.

use vstd::prelude::*;

use crate::config::ClientServiceConfig;
use crate::transport::SocketOpts;

verus! {

/// A control channel's socket sends at once; a data channel's does what the service
/// asks for.
pub proof fn socket_options_are_those_asked_for(
    service: ClientServiceConfig,
    control: SocketOpts,
    data: SocketOpts,
)
    requires
        call_ensures(SocketOpts::for_control_channel, (), control),
        call_ensures(SocketOpts::from_client_cfg, (&service,), data),
    ensures
        control.nodelay == Some(true),
        data.nodelay == service.nodelay,
{
}

} // verus!
