use tunnel_client::error::ClientError;

#[test]
fn messages() {
    let s = |t: &str| t.to_string();
    let cases = vec![
        (ClientError::CreateTransport(s("no socket")), "Failed to create the transport: no socket"),
        (ClientError::Io(s("eof")), "eof"),
        (
            ClientError::Connect { addr: s("host:1"), cause: s("refused") },
            "Failed to connect to host:1: refused",
        ),
        (ClientError::UnexpectedHello, "Unexpected type of hello"),
        (
            ClientError::AuthFailed { service: s("ssh"), reason: s("Service not exist") },
            "Authentication failed: ssh: Service not exist",
        ),
        (ClientError::HeartbeatTimeout, "Heartbeat timed out"),
        (ClientError::ExpectTcp, "Expect TCP traffic. Please check the configuration."),
        (ClientError::ReadUdpTraffic(s("eof")), "Failed to read UDPTraffic from the server: eof"),
        (
            ClientError::ForwardUdpTraffic(s("eof")),
            "Failed to forward UDP traffic to the server: eof",
        ),
    ];
    for (error, text) in cases {
        assert_eq!(error.message(), text);
    }
}
