use std::sync::Arc;
use tunnel_client::addr::SocketAddr;
use tunnel_client::config::{ClientServiceConfig, ServiceType};
use tunnel_client::data::{DataAction, DataChannel, DataEvent, DataPhase, RunDataChannelArgs};
use tunnel_client::protocol::DataChannelCmd;
use tunnel_client::transport::SocketOpts;

const REMOTE: SocketAddr = SocketAddr::V6 { ip6: 1, port: 2333, flowinfo: 0, scope_id: 0 };

fn channel(service_type: ServiceType) -> DataChannel<()> {
    DataChannel::new(RunDataChannelArgs {
        session_key: [3; 32],
        remote_addr: REMOTE,
        connector: Arc::new(()),
        socket_opts: SocketOpts { nodelay: None },
        service: ClientServiceConfig {
            service_type,
            name: "web".to_string(),
            local_addr: "127.0.0.1:80".to_string(),
            token: None,
            nodelay: None,
        },
    })
}

fn advanced(service_type: ServiceType, steps: usize) -> DataChannel<()> {
    let mut c = channel(service_type);
    c.begin();
    let events = vec![
        DataEvent::Dialed(Ok(())),
        DataEvent::StreamOpened,
        DataEvent::Sent(Ok(())),
        DataEvent::CmdRead(Ok(DataChannelCmd::StartForwardTcp)),
        DataEvent::LocalConnected(Ok(())),
    ];
    for e in events.into_iter().take(steps) {
        c.step(e);
    }
    c
}

fn text(a: DataAction) -> String {
    match a {
        DataAction::Fail(e) => e.message(),
        _ => panic!("not a failure"),
    }
}

#[test]
fn tcp_channel_from_dial_to_end() {
    let mut c = channel(ServiceType::Tcp);
    match c.begin() {
        DataAction::Dial { bind_addr, remote_addr, server_name } => {
            assert_eq!(bind_addr, SocketAddr::V4 { ip4: 0, port: 4444 });
            assert_eq!(remote_addr, REMOTE);
            assert_eq!(server_name, "localhost");
        }
        _ => panic!("no dial"),
    }
    assert!(matches!(c.step(DataEvent::Dialed(Ok(()))), DataAction::OpenStream));
    match c.step(DataEvent::StreamOpened) {
        DataAction::Send(bytes) => {
            assert_eq!(&bytes[..5], &[1, 0, 0, 0, 1]);
            assert_eq!(&bytes[5..], &[3u8; 32][..]);
        }
        _ => panic!("no hello"),
    }
    assert!(matches!(c.step(DataEvent::Sent(Ok(()))), DataAction::ReadCmd));
    assert!(matches!(
        c.step(DataEvent::CmdRead(Ok(DataChannelCmd::StartForwardTcp))),
        DataAction::ConnectLocal(addr) if addr == "127.0.0.1:80"
    ));
    assert!(matches!(c.step(DataEvent::LocalConnected(Ok(()))), DataAction::Copy));
    assert!(matches!(c.step(DataEvent::Copied), DataAction::Finish));
    assert_eq!(c.phase, DataPhase::Closed);
}

#[test]
fn only_tcp_services_are_forwarded() {
    let a = advanced(ServiceType::Udp, 3)
        .step(DataEvent::CmdRead(Ok(DataChannelCmd::StartForwardTcp)));
    assert_eq!(text(a), "Expect TCP traffic. Please check the configuration.");
}

#[test]
fn other_commands_end_the_channel() {
    for t in [ServiceType::Tcp, ServiceType::Udp] {
        let mut c = advanced(t, 3);
        let a = c.step(DataEvent::CmdRead(Ok(DataChannelCmd::StartForwardUdp)));
        assert!(matches!(a, DataAction::Finish));
        assert_eq!(c.phase, DataPhase::Closed);
    }
}

#[test]
fn failures_of_a_data_channel() {
    let t = ServiceType::Tcp;
    let cause = || "broken".to_string();
    assert_eq!(text(advanced(t, 0).step(DataEvent::Dialed(Err(cause())))), "broken");
    assert_eq!(text(advanced(t, 2).step(DataEvent::Sent(Err(cause())))), "broken");
    assert_eq!(text(advanced(t, 3).step(DataEvent::CmdRead(Err(cause())))), "broken");
    assert_eq!(
        text(advanced(t, 4).step(DataEvent::LocalConnected(Err(cause())))),
        "Failed to connect to 127.0.0.1:80: broken"
    );
}
