use std::sync::Arc;
use tunnel_client::addr::SocketAddr;
use tunnel_client::config::{ClientServiceConfig, ServiceType};
use tunnel_client::control::{ControlAction, ControlChannel, ControlEvent, ControlPhase};
use tunnel_client::error::ClientError;
use tunnel_client::protocol::{
    service_digest, session_key, Ack, ControlChannelCmd, Hello, CURRENT_PROTO_VERSION,
};
use tunnel_client::transport::SocketOpts;

const REMOTE: SocketAddr = SocketAddr::V4 { ip4: 0x7f00_0001, port: 2333 };
const NONCE: [u8; 32] = [9; 32];

fn service() -> ClientServiceConfig {
    ClientServiceConfig {
        service_type: ServiceType::Tcp,
        name: "ssh".to_string(),
        local_addr: "127.0.0.1:22".to_string(),
        token: Some("secret".to_string()),
        nodelay: Some(false),
    }
}

fn channel(heartbeat: u64) -> ControlChannel<u32> {
    ControlChannel::new(service(), "example.org:2333".to_string(), Arc::new(17), heartbeat)
}

/// Runs the handshake up to the given number of steps.
fn advanced(steps: usize) -> ControlChannel<u32> {
    let mut c = channel(40);
    c.begin();
    let events = vec![
        ControlEvent::Resolved(Ok(REMOTE)),
        ControlEvent::Connected(Ok(())),
        ControlEvent::Sent(Ok(())),
        ControlEvent::HelloRead(Ok(Hello::ControlChannelHello(CURRENT_PROTO_VERSION, NONCE))),
        ControlEvent::Sent(Ok(())),
        ControlEvent::AckRead(Ok(Ack::Accepted)),
    ];
    for e in events.into_iter().take(steps) {
        c.step(e);
    }
    c
}

fn text(a: ControlAction<u32>) -> String {
    match a {
        ControlAction::Fail(e) => e.message(),
        _ => panic!("not a failure"),
    }
}

#[test]
fn new_channel_knows_its_digest() {
    let c = channel(0);
    assert_eq!(c.digest, service_digest("ssh"));
    assert!(matches!(c.phase, ControlPhase::Idle));
}

#[test]
fn handshake_in_order() {
    let mut c = channel(40);
    assert!(matches!(c.begin(), ControlAction::Resolve(a) if a == "example.org:2333"));
    assert!(matches!(c.step(ControlEvent::Resolved(Ok(REMOTE))), ControlAction::Connect(REMOTE)));
    match c.step(ControlEvent::Connected(Ok(()))) {
        ControlAction::Send(bytes) => {
            assert_eq!(&bytes[..5], &[0, 0, 0, 0, 1]);
            assert_eq!(&bytes[5..], &service_digest("ssh")[..]);
        }
        _ => panic!("no hello"),
    }
    assert!(matches!(c.step(ControlEvent::Sent(Ok(()))), ControlAction::ReadHello));
    let key = session_key("secret", &NONCE);
    match c.step(ControlEvent::HelloRead(Ok(Hello::ControlChannelHello(77, NONCE)))) {
        ControlAction::Send(bytes) => assert_eq!(bytes, key.to_vec()),
        _ => panic!("no auth"),
    }
    assert!(matches!(c.step(ControlEvent::Sent(Ok(()))), ControlAction::ReadAck));
    assert!(matches!(c.step(ControlEvent::AckRead(Ok(Ack::Accepted))), ControlAction::Listen));
    assert!(matches!(
        c.step(ControlEvent::CmdRead(Ok(ControlChannelCmd::HeartBeat))),
        ControlAction::Listen
    ));
    for _ in 0..2 {
        match c.step(ControlEvent::CmdRead(Ok(ControlChannelCmd::CreateDataChannel))) {
            ControlAction::OpenDataChannel(args) => {
                assert_eq!(args.session_key, key);
                assert_eq!(args.remote_addr, REMOTE);
                assert_eq!(args.service.name, "ssh");
                assert_eq!(args.service.local_addr, "127.0.0.1:22");
                assert_eq!(*args.connector, 17);
                assert!(Arc::ptr_eq(&args.connector, &c.transport));
                assert_eq!(args.socket_opts, SocketOpts { nodelay: Some(false) });
            }
            _ => panic!("no data channel"),
        }
    }
    assert!(matches!(c.step(ControlEvent::ShutdownSignalled), ControlAction::Finish));
    assert!(matches!(c.phase, ControlPhase::Closed));
}

#[test]
fn session_key_once_known_is_sent() {
    let mut c = advanced(3);
    match c.authenticate(REMOTE, [5; 32]) {
        ControlAction::Send(bytes) => assert_eq!(bytes, vec![5; 32]),
        _ => panic!("no auth"),
    }
    assert!(matches!(
        c.phase,
        ControlPhase::SendingAuth { remote: REMOTE, session_key } if session_key == [5; 32]
    ));
}

#[test]
fn failures_on_the_way() {
    let cause = || "broken".to_string();
    assert_eq!(text(advanced(0).step(ControlEvent::Resolved(Err(cause())))), "broken");
    assert_eq!(
        text(advanced(1).step(ControlEvent::Connected(Err(cause())))),
        "Failed to connect to example.org:2333: broken"
    );
    assert_eq!(text(advanced(2).step(ControlEvent::Sent(Err(cause())))), "broken");
    assert_eq!(text(advanced(3).step(ControlEvent::HelloRead(Err(cause())))), "broken");
    assert_eq!(text(advanced(4).step(ControlEvent::Sent(Err(cause())))), "broken");
    assert_eq!(text(advanced(5).step(ControlEvent::AckRead(Err(cause())))), "broken");
    assert_eq!(text(advanced(6).step(ControlEvent::CmdRead(Err(cause())))), "broken");
}

#[test]
fn hello_of_the_wrong_kind() {
    let mut c = advanced(3);
    let a = c.step(ControlEvent::HelloRead(Ok(Hello::DataChannelHello(1, NONCE))));
    assert!(matches!(a, ControlAction::Fail(ClientError::UnexpectedHello)));
    assert!(matches!(c.phase, ControlPhase::Closed));
}

#[test]
fn refused_token() {
    let mut c = advanced(5);
    let a = c.step(ControlEvent::AckRead(Ok(Ack::Refused("Incorrect token".to_string()))));
    assert_eq!(text(a), "Authentication failed: ssh: Incorrect token");
    assert!(matches!(c.phase, ControlPhase::Closed));
}

#[test]
fn silence_of_the_server() {
    let mut c = advanced(6);
    assert_eq!(c.heartbeat(), Some(40));
    assert_eq!(text(c.step(ControlEvent::HeartbeatElapsed)), "Heartbeat timed out");
    assert_eq!(channel(0).heartbeat(), None);
}

#[test]
fn a_run_can_be_repeated() {
    let mut c = advanced(6);
    c.step(ControlEvent::HeartbeatElapsed);
    assert!(matches!(c.begin(), ControlAction::Resolve(_)));
    assert!(matches!(c.phase, ControlPhase::Resolving));
}
