//! Laws of error messages.

use vstd::prelude::*;

use crate::error::ClientError;

verus! {

/// A failure with an outside cause ends with a colon and that cause; what stands
/// before it says what was tried, and for an address or a service names it. Reading
/// and writing add nothing of their own.
pub proof fn messages_end_with_their_cause(error: ClientError, r: String)
    requires
        call_ensures(ClientError::message, (&error,), r),
    ensures
        match error {
            ClientError::Io(cause) => r@ == cause@,
            ClientError::CreateTransport(cause) => r@ == "Failed to create the transport"@ + ": "@
                + cause@,
            ClientError::Connect { addr, cause } => r@ == "Failed to connect to "@ + addr@ + ": "@
                + cause@,
            ClientError::AuthFailed { service, reason } => r@ == "Authentication failed: "@
                + service@ + ": "@ + reason@,
            ClientError::ReadUdpTraffic(cause) => r@
                == "Failed to read UDPTraffic from the server"@ + ": "@ + cause@,
            ClientError::ForwardUdpTraffic(cause) => r@
                == "Failed to forward UDP traffic to the server"@ + ": "@ + cause@,
            ClientError::MissingClientConfig => r@
                == "Try to run as a client, but the configuration is missing. Please add the `[client]` block"@,
            ClientError::UnexpectedHello => r@ == "Unexpected type of hello"@,
            ClientError::HeartbeatTimeout => r@ == "Heartbeat timed out"@,
            ClientError::ExpectTcp => r@ == "Expect TCP traffic. Please check the configuration."@,
        },
{
}

} // verus!
