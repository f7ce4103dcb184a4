use bytes::Bytes;
use tunnel_client::addr::SocketAddr;
use tunnel_client::error::ClientError;
use tunnel_client::table::Table;
use tunnel_client::udp::{
    forwarder_buffer, outbound_step, Forwarder, ForwarderAction, ForwarderEvent, ForwarderPhase,
    OutboundAction, OutboundEvent, UdpAction, UdpChannel, UdpEvent, UdpPortMap, UdpTraffic,
    UDP_BUFFER_SIZE,
};

const ALICE: SocketAddr = SocketAddr::V4 { ip4: 10, port: 1000 };
const BOB: SocketAddr = SocketAddr::V4 { ip4: 11, port: 1000 };

fn packet(from: SocketAddr, data: &'static str) -> UdpEvent<u32> {
    UdpEvent::PacketRead(Ok(UdpTraffic { from, data: Bytes::from_static(data.as_bytes()) }))
}

/// A channel that has read the length of a packet's header.
fn reading() -> UdpChannel {
    let mut c = UdpChannel::new();
    let mut map: UdpPortMap<u32> = Table::new();
    assert!(matches!(c.begin(), UdpAction::ReadLength));
    assert!(matches!(c.step(&mut map, UdpEvent::LengthRead(Ok(12))), UdpAction::ReadPacket(12)));
    c
}

fn leaving(from: SocketAddr) -> Forwarder {
    let mut f = Forwarder::new(from);
    f.step(&forwarder_buffer(), ForwarderEvent::IdleElapsed);
    f
}

#[test]
fn first_packet_of_a_visitor() {
    let mut map: UdpPortMap<u32> = Table::new();
    let mut c = reading();
    assert!(matches!(c.step(&mut map, packet(ALICE, "hi")), UdpAction::ConnectLocal));
    assert!(matches!(
        c.step(&mut map, UdpEvent::Connected(Ok(5))),
        UdpAction::StartForwarder(ALICE)
    ));
    assert_eq!(map.get(&ALICE), Some(&5));
    match c.step(&mut map, UdpEvent::Noted) {
        UdpAction::Deliver { from, data } => {
            assert_eq!(from, ALICE);
            assert_eq!(&data[..], b"hi");
        }
        _ => panic!("not delivered"),
    }
    assert!(matches!(c.step(&mut map, UdpEvent::Delivered), UdpAction::ReadLength));
}

#[test]
fn known_visitor_needs_no_socket() {
    let mut map: UdpPortMap<u32> = Table::new();
    map.insert(ALICE, 5);
    let mut c = reading();
    assert!(matches!(
        c.step(&mut map, packet(ALICE, "again")),
        UdpAction::Deliver { from: ALICE, data } if &data[..] == b"again"
    ));
    assert_eq!(map.len(), 1);
}

#[test]
fn packet_is_dropped_without_a_socket() {
    let mut map: UdpPortMap<u32> = Table::new();
    let mut c = reading();
    c.step(&mut map, packet(ALICE, "hi"));
    let a = c.step(&mut map, UdpEvent::Connected(Err("refused".to_string())));
    assert!(matches!(a, UdpAction::Report(cause) if cause == "refused"));
    assert!(matches!(c.step(&mut map, UdpEvent::Noted), UdpAction::ReadLength));
    assert_eq!(map.len(), 0);
}

#[test]
fn packet_is_dropped_when_the_forwarder_has_left() {
    let mut map: UdpPortMap<u32> = Table::new();
    let mut c = reading();
    c.step(&mut map, packet(ALICE, "hi"));
    c.step(&mut map, UdpEvent::Connected(Ok(5)));
    leaving(ALICE).clean_up(&mut map);
    assert!(matches!(c.step(&mut map, UdpEvent::Noted), UdpAction::ReadLength));
}

#[test]
fn reading_fails() {
    let mut map: UdpPortMap<u32> = Table::new();
    let mut c = UdpChannel::new();
    c.begin();
    match c.step(&mut map, UdpEvent::LengthRead(Err("eof".to_string()))) {
        UdpAction::Fail(e) => assert_eq!(e.message(), "eof"),
        _ => panic!("no failure"),
    }
    match reading().step(&mut map, UdpEvent::PacketRead(Err("eof".to_string()))) {
        UdpAction::Fail(e) => {
            assert_eq!(e.message(), "Failed to read UDPTraffic from the server: eof")
        }
        _ => panic!("no failure"),
    }
}

#[test]
fn forgotten_visitor_gets_a_new_socket() {
    let mut map: UdpPortMap<u32> = Table::new();
    map.insert(ALICE, 5);
    map.insert(BOB, 6);
    let mut f = leaving(ALICE);
    f.clean_up(&mut map);
    assert_eq!(f.phase, ForwarderPhase::Closed);
    assert_eq!(map.get(&ALICE), None);
    assert_eq!(map.get(&BOB), Some(&6));
    assert!(matches!(reading().step(&mut map, packet(ALICE, "hi")), UdpAction::ConnectLocal));
}

/// The visitor's forwarder failed and left its queue behind.
#[test]
fn visitor_of_a_failed_forwarder_gets_a_new_one() {
    let mut map: UdpPortMap<u32> = Table::new();
    map.insert(ALICE, 5);
    map.insert(BOB, 6);
    let mut c = reading();
    assert!(matches!(c.step(&mut map, packet(ALICE, "hi")), UdpAction::Deliver { .. }));
    let back = Bytes::from_static(b"hi");
    assert!(matches!(c.step(&mut map, UdpEvent::Refused(back)), UdpAction::ConnectLocal));
    assert_eq!(map.get(&ALICE), None);
    assert_eq!(map.get(&BOB), Some(&6));
    assert!(matches!(
        c.step(&mut map, UdpEvent::Connected(Ok(7))),
        UdpAction::StartForwarder(ALICE)
    ));
    assert_eq!(map.get(&ALICE), Some(&7));
    assert!(matches!(
        c.step(&mut map, UdpEvent::Noted),
        UdpAction::Deliver { from: ALICE, data } if &data[..] == b"hi"
    ));
}

#[test]
fn refused_packet_is_dropped_without_a_socket() {
    let mut map: UdpPortMap<u32> = Table::new();
    map.insert(ALICE, 5);
    let mut c = reading();
    c.step(&mut map, packet(ALICE, "hi"));
    c.step(&mut map, UdpEvent::Refused(Bytes::from_static(b"hi")));
    c.step(&mut map, UdpEvent::Connected(Err("refused".to_string())));
    assert!(matches!(c.step(&mut map, UdpEvent::Noted), UdpAction::ReadLength));
    assert_eq!(map.len(), 0);
}

/// Three packets of one visitor and one of another, of which one is dropped.
#[test]
fn packets_are_delivered_in_order() {
    let mut map: UdpPortMap<u32> = Table::new();
    let mut c = UdpChannel::new();
    let mut action = c.begin();
    let mut arriving = vec![(ALICE, "one"), (BOB, "two"), (ALICE, "three"), (ALICE, "four")];
    arriving.reverse();
    let mut sockets = vec![Ok(1), Err("refused".to_string())];
    sockets.reverse();
    let mut delivered = Vec::new();
    loop {
        let event = match action {
            UdpAction::ReadLength if arriving.is_empty() => break,
            UdpAction::ReadLength => UdpEvent::LengthRead(Ok(7)),
            UdpAction::ReadPacket(_) => {
                let (from, data) = arriving.pop().unwrap();
                packet(from, data)
            }
            UdpAction::ConnectLocal => UdpEvent::Connected(sockets.pop().unwrap()),
            UdpAction::StartForwarder(_) | UdpAction::Report(_) => UdpEvent::Noted,
            UdpAction::Deliver { from, data } => {
                delivered.push((from, data));
                UdpEvent::Delivered
            }
            UdpAction::Fail(_) => panic!("failed"),
        };
        action = c.step(&mut map, event);
    }
    let expected: Vec<(SocketAddr, Bytes)> = ["one", "three", "four"]
        .iter()
        .map(|t| (ALICE, Bytes::from_static(t.as_bytes())))
        .collect();
    assert_eq!(delivered, expected);
}

#[test]
fn outbound_packets() {
    let t = UdpTraffic { from: BOB, data: Bytes::from_static(b"x") };
    assert!(matches!(
        outbound_step(OutboundEvent::Queued(Some(t))),
        OutboundAction::Write(UdpTraffic { from: BOB, data }) if &data[..] == b"x"
    ));
    assert!(matches!(outbound_step(OutboundEvent::Queued(None)), OutboundAction::Stop));
    assert!(matches!(outbound_step(OutboundEvent::Written(Ok(()))), OutboundAction::Next));
    match outbound_step(OutboundEvent::Written(Err("eof".to_string()))) {
        OutboundAction::Abandon(e) => {
            assert_eq!(e.message(), "Failed to forward UDP traffic to the server: eof")
        }
        _ => panic!("not abandoned"),
    }
}

#[test]
fn buffer_of_a_forwarder() {
    let buf = forwarder_buffer();
    assert_eq!(buf.len(), UDP_BUFFER_SIZE);
    assert_eq!(buf.len(), 2048);
    assert!(buf.iter().all(|b| *b == 0));
}

#[test]
fn packets_from_the_service() {
    let mut buf = forwarder_buffer();
    buf[..5].copy_from_slice(b"hello");
    for len in [0usize, 3, 2048] {
        let mut f = Forwarder::new(ALICE);
        match f.step(&buf, ForwarderEvent::Received(Ok(len))) {
            ForwarderAction::SendToServer(t) => {
                assert_eq!(t.from, ALICE);
                assert_eq!(&t.data[..], &buf[..len]);
            }
            _ => panic!("not sent"),
        }
        assert!(matches!(
            f.step(&buf, ForwarderEvent::SentToServer(Ok(()))),
            ForwarderAction::Wait
        ));
    }
}

#[test]
fn packets_to_the_service() {
    let buf = forwarder_buffer();
    let mut f = Forwarder::new(ALICE);
    let data = Bytes::from_static(b"ping");
    assert!(matches!(
        f.step(&buf, ForwarderEvent::Inbound(Some(data))),
        ForwarderAction::SendToService(d) if &d[..] == b"ping"
    ));
    assert!(matches!(f.step(&buf, ForwarderEvent::SentToService(Ok(()))), ForwarderAction::Wait));
    assert_eq!(f.phase, ForwarderPhase::Waiting);
}

#[test]
fn what_makes_a_forwarder_leave() {
    let buf = forwarder_buffer();
    for e in [
        ForwarderEvent::Inbound(None),
        ForwarderEvent::Received(Err("refused".to_string())),
        ForwarderEvent::IdleElapsed,
    ] {
        let mut f = Forwarder::new(ALICE);
        assert!(matches!(f.step(&buf, e), ForwarderAction::CleanUp));
        assert_eq!(f.phase, ForwarderPhase::Leaving);
    }
}

#[test]
fn failed_sends_end_a_forwarder() {
    let buf = forwarder_buffer();
    let mut f = Forwarder::new(ALICE);
    f.step(&buf, ForwarderEvent::Inbound(Some(Bytes::new())));
    let a = f.step(&buf, ForwarderEvent::SentToService(Err("broken".to_string())));
    assert!(matches!(a, ForwarderAction::Fail(ClientError::Io(cause)) if cause == "broken"));
    let mut f = Forwarder::new(ALICE);
    f.step(&buf, ForwarderEvent::Received(Ok(1)));
    let a = f.step(&buf, ForwarderEvent::SentToServer(Err("closed".to_string())));
    assert!(matches!(a, ForwarderAction::Fail(ClientError::Io(cause)) if cause == "closed"));
    assert_eq!(f.phase, ForwarderPhase::Closed);
}
