//! What can go wrong while the client runs.

use vstd::prelude::*;

verus! {

/// Why a client or one of its channels stopped. Where an outside failure is the
/// cause, the variant holds its text.
#[derive(Debug)]
pub enum ClientError {
    /// There is no `[client]` block.
    MissingClientConfig,
    /// The transport could not be made.
    CreateTransport(String),
    /// Reading, writing or resolving failed.
    Io(String),
    /// No connection to `addr`.
    Connect { addr: String, cause: String },
    /// The server answered with the hello of another kind of channel.
    UnexpectedHello,
    /// The server did not accept the service's token.
    AuthFailed { service: String, reason: String },
    /// The server was silent for too long.
    HeartbeatTimeout,
    /// The server asked for TCP traffic of a service that carries something else.
    ExpectTcp,
    /// A UDP packet from the server could not be read.
    ReadUdpTraffic(String),
    /// A UDP packet to the server could not be written.
    ForwardUdpTraffic(String),
}

fn join(first: &str, second: &str) -> (r: String)
    ensures
        r@ == first@ + second@,
{
    let mut r = first.to_owned();
    r.append(second);
    r
}

fn join_cause(context: String, cause: &str) -> (r: String)
    ensures
        r@ == context@ + ": "@ + cause@,
{
    let mut r = context;
    r.append(": ");
    r.append(cause);
    r
}

impl ClientError {
    /// The message with its cause behind a colon, where there is one.
    pub open spec fn text(self) -> Seq<char> {
        match self {
            ClientError::MissingClientConfig =>
                "Try to run as a client, but the configuration is missing. Please add the `[client]` block"@,
            ClientError::CreateTransport(cause) => "Failed to create the transport"@ + ": "@
                + cause@,
            ClientError::Io(cause) => cause@,
            ClientError::Connect { addr, cause } => "Failed to connect to "@ + addr@ + ": "@
                + cause@,
            ClientError::UnexpectedHello => "Unexpected type of hello"@,
            ClientError::AuthFailed { service, reason } => "Authentication failed: "@ + service@
                + ": "@ + reason@,
            ClientError::HeartbeatTimeout => "Heartbeat timed out"@,
            ClientError::ExpectTcp => "Expect TCP traffic. Please check the configuration."@,
            ClientError::ReadUdpTraffic(cause) =>
                "Failed to read UDPTraffic from the server"@ + ": "@ + cause@,
            ClientError::ForwardUdpTraffic(cause) =>
                "Failed to forward UDP traffic to the server"@ + ": "@ + cause@,
        }
    }

    pub fn message(&self) -> (r: String)
        ensures
            r@ == self.text(),
    {
        match self {
            ClientError::MissingClientConfig =>
                "Try to run as a client, but the configuration is missing. Please add the `[client]` block".to_owned(),
            ClientError::CreateTransport(cause) => join_cause(
                "Failed to create the transport".to_owned(),
                cause.as_str(),
            ),
            ClientError::Io(cause) => cause.clone(),
            ClientError::Connect { addr, cause } => join_cause(
                join("Failed to connect to ", addr.as_str()),
                cause.as_str(),
            ),
            ClientError::UnexpectedHello => "Unexpected type of hello".to_owned(),
            ClientError::AuthFailed { service, reason } => join_cause(
                join("Authentication failed: ", service.as_str()),
                reason.as_str(),
            ),
            ClientError::HeartbeatTimeout => "Heartbeat timed out".to_owned(),
            ClientError::ExpectTcp =>
                "Expect TCP traffic. Please check the configuration.".to_owned(),
            ClientError::ReadUdpTraffic(cause) => join_cause(
                "Failed to read UDPTraffic from the server".to_owned(),
                cause.as_str(),
            ),
            ClientError::ForwardUdpTraffic(cause) => join_cause(
                "Failed to forward UDP traffic to the server".to_owned(),
                cause.as_str(),
            ),
        }
    }
}

} // verus!
