//! Forwarding of UDP traffic.
//!
//! UDP has no connections, so each visitor that sends a packet gets a local
//! socket of its own, with a forwarder that carries packets both ways. The port
//! map knows the visitors that have one.

use vstd::prelude::*;

use crate::addr::SocketAddr;
use crate::error::ClientError;
use crate::outside;
use crate::table::Table;

verus! {

/// How many bytes a packet from a local service may have.
pub const UDP_BUFFER_SIZE: usize = 2048;

/// How many packets may wait to be sent.
pub const UDP_SENDQ_SIZE: usize = 1024;

/// After how many seconds without traffic a forwarder gives up.
pub const UDP_TIMEOUT: u64 = 60;

/// A packet of a visitor, or one for a visitor.
#[derive(Debug)]
pub struct UdpTraffic {
    pub from: SocketAddr,
    pub data: bytes::Bytes,
}

/// The visitors that have a forwarder, or had one that failed since their last
/// packet. `H` is what hands a packet to it.
pub type UdpPortMap<H> = Table<SocketAddr, H>;

// ---- from the server to the forwarders ----

/// What a UDP channel waits for.
#[derive(Debug)]
pub enum UdpPhase {
    Idle,
    ReadingLength,
    ReadingPacket,
    /// A socket is being opened for the visitor that sent this packet.
    Connecting(UdpTraffic),
    /// The visitor of this packet has a forwarder now, if it could have one.
    Routing(UdpTraffic),
    /// A packet is being handed to this visitor's forwarder.
    Delivering(SocketAddr),
    Closed,
}

/// What came of the last action. A failure holds the text of its cause.
pub enum UdpEvent<H> {
    LengthRead(Result<u8, String>),
    PacketRead(Result<UdpTraffic, String>),
    /// A socket was opened, and this hands packets to its forwarder.
    Connected(Result<H, String>),
    /// What was to be started or reported is started or reported.
    Noted,
    /// The packet was handed over.
    Delivered,
    /// The forwarder is gone without having left the port map. The data comes back.
    Refused(bytes::Bytes),
}

/// What to do next.
#[derive(Debug)]
pub enum UdpAction {
    /// Read the length of a packet's header.
    ReadLength,
    /// Read a packet whose header has this length.
    ReadPacket(u8),
    /// Open a socket to the local service.
    ConnectLocal,
    /// Run a forwarder for this visitor, with the socket that was opened.
    StartForwarder(SocketAddr),
    /// Report that no socket could be opened.
    Report(String),
    /// Hand the data to the visitor's forwarder.
    Deliver { from: SocketAddr, data: bytes::Bytes },
    Fail(ClientError),
}

/// A data channel that carries UDP traffic.
#[derive(Debug)]
pub struct UdpChannel {
    pub phase: UdpPhase,
}

/// Whether `event` is an answer to what the channel waits for.
pub open spec fn udp_expects<H>(channel: UdpChannel, event: UdpEvent<H>) -> bool {
    match channel.phase {
        UdpPhase::ReadingLength => event is LengthRead,
        UdpPhase::ReadingPacket => event is PacketRead,
        UdpPhase::Connecting(_) => event is Connected,
        UdpPhase::Routing(_) => event is Noted,
        UdpPhase::Delivering(_) => event is Delivered || event is Refused,
        UdpPhase::Idle | UdpPhase::Closed => false,
    }
}

/// One step of a UDP channel: with the port map `map`, `event` leads from the
/// state `before` to the state `after`, to the port map `new_map` and to `action`.
pub open spec fn udp_step<H>(
    before: UdpChannel,
    map: Map<SocketAddr, H>,
    event: UdpEvent<H>,
    after: UdpChannel,
    new_map: Map<SocketAddr, H>,
    action: UdpAction,
) -> bool {
    match (before.phase, event) {
        (UdpPhase::ReadingLength, UdpEvent::LengthRead(Ok(len))) => {
            &&& new_map == map
            &&& action == UdpAction::ReadPacket(len)
            &&& after.phase == UdpPhase::ReadingPacket
        },
        (UdpPhase::ReadingLength, UdpEvent::LengthRead(Err(cause))) => {
            &&& new_map == map
            &&& action == UdpAction::Fail(ClientError::Io(cause))
            &&& after.phase == UdpPhase::Closed
        },
        (UdpPhase::ReadingPacket, UdpEvent::PacketRead(Ok(packet))) => {
            &&& new_map == map
            &&& if map.dom().contains(packet.from) {
                &&& action == (UdpAction::Deliver { from: packet.from, data: packet.data })
                &&& after.phase == UdpPhase::Delivering(packet.from)
            } else {
                &&& action == UdpAction::ConnectLocal
                &&& after.phase == UdpPhase::Connecting(packet)
            }
        },
        (UdpPhase::ReadingPacket, UdpEvent::PacketRead(Err(cause))) => {
            &&& new_map == map
            &&& action == UdpAction::Fail(ClientError::ReadUdpTraffic(cause))
            &&& after.phase == UdpPhase::Closed
        },
        (UdpPhase::Connecting(packet), UdpEvent::Connected(Ok(handle))) => {
            &&& new_map == map.insert(packet.from, handle)
            &&& action == UdpAction::StartForwarder(packet.from)
            &&& after.phase == UdpPhase::Routing(packet)
        },
        (UdpPhase::Connecting(packet), UdpEvent::Connected(Err(cause))) => {
            &&& new_map == map
            &&& action == UdpAction::Report(cause)
            &&& after.phase == UdpPhase::Routing(packet)
        },
        (UdpPhase::Routing(packet), UdpEvent::Noted) => {
            &&& new_map == map
            &&& if map.dom().contains(packet.from) {
                &&& action == (UdpAction::Deliver { from: packet.from, data: packet.data })
                &&& after.phase == UdpPhase::Delivering(packet.from)
            } else {
                &&& action == UdpAction::ReadLength
                &&& after.phase == UdpPhase::ReadingLength
            }
        },
        (UdpPhase::Delivering(_), UdpEvent::Delivered) => {
            &&& new_map == map
            &&& action == UdpAction::ReadLength
            &&& after.phase == UdpPhase::ReadingLength
        },
        (UdpPhase::Delivering(from), UdpEvent::Refused(data)) => {
            &&& new_map == map.remove(from)
            &&& action == UdpAction::ConnectLocal
            &&& after.phase == UdpPhase::Connecting(UdpTraffic { from, data })
        },
        _ => false,
    }
}

impl UdpChannel {
    pub fn new() -> (r: UdpChannel)
        ensures
            r.phase == UdpPhase::Idle,
    {
        UdpChannel { phase: UdpPhase::Idle }
    }

    pub fn begin(&mut self) -> (action: UdpAction)
        ensures
            final(self).phase == UdpPhase::ReadingLength,
            action == UdpAction::ReadLength,
    {
        self.phase = UdpPhase::ReadingLength;
        UdpAction::ReadLength
    }

    /// Takes the event that the last action led to, and gives the next action.
    pub fn step<H>(&mut self, map: &mut UdpPortMap<H>, event: UdpEvent<H>) -> (action: UdpAction)
        requires
            udp_expects(*old(self), event),
        ensures
            udp_step(*old(self), old(map)@, event, *final(self), final(map)@, action),
    {
        let mut phase = UdpPhase::Closed;
        std::mem::swap(&mut phase, &mut self.phase);
        match (phase, event) {
            (UdpPhase::ReadingLength, UdpEvent::LengthRead(Ok(len))) => {
                self.phase = UdpPhase::ReadingPacket;
                UdpAction::ReadPacket(len)
            },
            (UdpPhase::ReadingLength, UdpEvent::LengthRead(Err(cause))) => {
                UdpAction::Fail(ClientError::Io(cause))
            },
            (UdpPhase::ReadingPacket, UdpEvent::PacketRead(Ok(packet))) => {
                if map.contains_key(&packet.from) {
                    self.phase = UdpPhase::Delivering(packet.from);
                    UdpAction::Deliver { from: packet.from, data: packet.data }
                } else {
                    self.phase = UdpPhase::Connecting(packet);
                    UdpAction::ConnectLocal
                }
            },
            (UdpPhase::ReadingPacket, UdpEvent::PacketRead(Err(cause))) => {
                UdpAction::Fail(ClientError::ReadUdpTraffic(cause))
            },
            (UdpPhase::Connecting(packet), UdpEvent::Connected(Ok(handle))) => {
                let from = packet.from;
                let _ = map.insert(from, handle);
                self.phase = UdpPhase::Routing(packet);
                UdpAction::StartForwarder(from)
            },
            (UdpPhase::Connecting(packet), UdpEvent::Connected(Err(cause))) => {
                self.phase = UdpPhase::Routing(packet);
                UdpAction::Report(cause)
            },
            (UdpPhase::Routing(packet), UdpEvent::Noted) => {
                if map.contains_key(&packet.from) {
                    self.phase = UdpPhase::Delivering(packet.from);
                    UdpAction::Deliver { from: packet.from, data: packet.data }
                } else {
                    self.phase = UdpPhase::ReadingLength;
                    UdpAction::ReadLength
                }
            },
            (UdpPhase::Delivering(_), UdpEvent::Delivered) => {
                self.phase = UdpPhase::ReadingLength;
                UdpAction::ReadLength
            },
            (UdpPhase::Delivering(from), UdpEvent::Refused(data)) => {
                let _ = map.remove(&from);
                self.phase = UdpPhase::Connecting(UdpTraffic { from, data });
                UdpAction::ConnectLocal
            },
            _ => vstd::pervasive::unreached(),
        }
    }
}

// ---- from the forwarders to the server ----

/// What the task that writes to the server has come to.
pub enum OutboundEvent {
    /// The next packet, or none where no forwarder is left to send one.
    Queued(Option<UdpTraffic>),
    Written(Result<(), String>),
}

pub enum OutboundAction {
    /// Write this packet to the server.
    Write(UdpTraffic),
    /// Wait for the next packet.
    Next,
    /// Write no more.
    Stop,
    /// Report the error and write no more.
    Abandon(ClientError),
}

/// Packets are written one by one, until there are no more or one cannot be written.
pub fn outbound_step(event: OutboundEvent) -> (r: OutboundAction)
    ensures
        r == match event {
            OutboundEvent::Queued(Some(packet)) => OutboundAction::Write(packet),
            OutboundEvent::Queued(None) => OutboundAction::Stop,
            OutboundEvent::Written(Ok(_)) => OutboundAction::Next,
            OutboundEvent::Written(Err(cause)) => OutboundAction::Abandon(
                ClientError::ForwardUdpTraffic(cause),
            ),
        },
{
    match event {
        OutboundEvent::Queued(Some(packet)) => OutboundAction::Write(packet),
        OutboundEvent::Queued(None) => OutboundAction::Stop,
        OutboundEvent::Written(Ok(_)) => OutboundAction::Next,
        OutboundEvent::Written(Err(cause)) => OutboundAction::Abandon(
            ClientError::ForwardUdpTraffic(cause),
        ),
    }
}

// ---- a forwarder ----

/// What a forwarder waits for.
#[derive(Clone, Copy, Debug, PartialEq, Eq, Structural)]
pub enum ForwarderPhase {
    /// For a packet from either side, for [`UDP_TIMEOUT`] seconds.
    Waiting,
    SendingToService,
    SendingToServer,
    /// For [`Forwarder::clean_up`].
    Leaving,
    Closed,
}

/// What came of the last action. A failure holds the text of its cause.
pub enum ForwarderEvent {
    /// A packet from the server, or none where no more will come.
    Inbound(Option<bytes::Bytes>),
    /// So many bytes of the buffer were filled by the local service.
    Received(Result<usize, String>),
    /// There was no traffic for [`UDP_TIMEOUT`] seconds.
    IdleElapsed,
    SentToService(Result<(), String>),
    SentToServer(Result<(), String>),
}

/// What to do next.
#[derive(Debug)]
pub enum ForwarderAction {
    /// Wait for a packet from either side, for [`UDP_TIMEOUT`] seconds from now.
    Wait,
    SendToService(bytes::Bytes),
    SendToServer(UdpTraffic),
    /// Call [`Forwarder::clean_up`]; then the forwarder is done.
    CleanUp,
    /// The forwarder failed. Its visitor stays in the port map until a packet for
    /// it is refused.
    Fail(ClientError),
}

/// Carries the packets of one visitor to a local socket and back.
#[derive(Debug)]
pub struct Forwarder {
    pub from: SocketAddr,
    pub phase: ForwarderPhase,
}

/// Whether `event` is an answer to what the forwarder waits for. The local
/// service fills no more bytes than the buffer has.
pub open spec fn forwarder_expects(
    forwarder: Forwarder,
    buf: Seq<u8>,
    event: ForwarderEvent,
) -> bool {
    match forwarder.phase {
        ForwarderPhase::Waiting => {
            ||| event is Inbound
            ||| event is IdleElapsed
            ||| event matches ForwarderEvent::Received(received) && (received matches Ok(len) ==> len
                <= buf.len())
        },
        ForwarderPhase::SendingToService => event is SentToService,
        ForwarderPhase::SendingToServer => event is SentToServer,
        ForwarderPhase::Leaving | ForwarderPhase::Closed => false,
    }
}

/// One step of a forwarder: with `buf` in its buffer, `event` leads from the
/// state `before` to the state `after` and to `action`.
pub open spec fn forwarder_step(
    before: Forwarder,
    buf: Seq<u8>,
    event: ForwarderEvent,
    after: Forwarder,
    action: ForwarderAction,
) -> bool {
    &&& after.from == before.from
    &&& match (before.phase, event) {
        (ForwarderPhase::Waiting, ForwarderEvent::Inbound(Some(data))) => {
            &&& action == ForwarderAction::SendToService(data)
            &&& after.phase == ForwarderPhase::SendingToService
        },
        (ForwarderPhase::Waiting, ForwarderEvent::Received(Ok(len))) => {
            &&& action matches ForwarderAction::SendToServer(packet) && packet.from == before.from
                && outside::bytes_held(packet.data) == buf.take(len as int)
            &&& after.phase == ForwarderPhase::SendingToServer
        },
        (ForwarderPhase::Waiting, ForwarderEvent::Inbound(None))
        | (ForwarderPhase::Waiting, ForwarderEvent::Received(Err(_)))
        | (ForwarderPhase::Waiting, ForwarderEvent::IdleElapsed) => {
            &&& action == ForwarderAction::CleanUp
            &&& after.phase == ForwarderPhase::Leaving
        },
        (ForwarderPhase::SendingToService, ForwarderEvent::SentToService(sent))
        | (ForwarderPhase::SendingToServer, ForwarderEvent::SentToServer(sent)) => match sent {
            Ok(_) => {
                &&& action == ForwarderAction::Wait
                &&& after.phase == ForwarderPhase::Waiting
            },
            Err(cause) => {
                &&& action == ForwarderAction::Fail(ClientError::Io(cause))
                &&& after.phase == ForwarderPhase::Closed
            },
        },
        _ => false,
    }
}

/// The buffer of a forwarder: [`UDP_BUFFER_SIZE`] bytes, all zero.
pub fn forwarder_buffer() -> (r: bytes::BytesMut)
    ensures
        outside::buffer_held(r) == Seq::new(UDP_BUFFER_SIZE as nat, |i: int| 0u8),
{
    let mut buf = outside::empty_buffer();
    outside::resize_buffer(&mut buf, UDP_BUFFER_SIZE, 0);
    assert(outside::buffer_held(buf) =~= Seq::new(UDP_BUFFER_SIZE as nat, |i: int| 0u8));
    buf
}

impl Forwarder {
    pub fn new(from: SocketAddr) -> (r: Forwarder)
        ensures
            r.from == from,
            r.phase == ForwarderPhase::Waiting,
    {
        Forwarder { from, phase: ForwarderPhase::Waiting }
    }

    /// Takes the event that the last action led to, with what the buffer holds,
    /// and gives the next action.
    pub fn step(&mut self, buf: &bytes::BytesMut, event: ForwarderEvent) -> (action:
        ForwarderAction)
        requires
            forwarder_expects(*old(self), outside::buffer_held(*buf), event),
        ensures
            forwarder_step(*old(self), outside::buffer_held(*buf), event, *final(self), action),
    {
        match (self.phase, event) {
            (ForwarderPhase::Waiting, ForwarderEvent::Inbound(Some(data))) => {
                self.phase = ForwarderPhase::SendingToService;
                ForwarderAction::SendToService(data)
            },
            (ForwarderPhase::Waiting, ForwarderEvent::Received(Ok(len))) => {
                self.phase = ForwarderPhase::SendingToServer;
                let filled = vstd::slice::slice_subrange(outside::buffer_slice(buf), 0, len);
                ForwarderAction::SendToServer(
                    UdpTraffic { from: self.from, data: outside::copy_from_slice(filled) },
                )
            },
            (ForwarderPhase::Waiting, ForwarderEvent::Inbound(None))
            | (ForwarderPhase::Waiting, ForwarderEvent::Received(Err(_)))
            | (ForwarderPhase::Waiting, ForwarderEvent::IdleElapsed) => {
                self.phase = ForwarderPhase::Leaving;
                ForwarderAction::CleanUp
            },
            (ForwarderPhase::SendingToService, ForwarderEvent::SentToService(sent))
            | (ForwarderPhase::SendingToServer, ForwarderEvent::SentToServer(sent)) => match sent {
                Ok(_) => {
                    self.phase = ForwarderPhase::Waiting;
                    ForwarderAction::Wait
                },
                Err(cause) => {
                    self.phase = ForwarderPhase::Closed;
                    ForwarderAction::Fail(ClientError::Io(cause))
                },
            },
            _ => vstd::pervasive::unreached(),
        }
    }

    /// Takes the visitor out of the port map.
    pub fn clean_up<H>(&mut self, map: &mut UdpPortMap<H>)
        requires
            old(self).phase == ForwarderPhase::Leaving,
        ensures
            final(map)@ == old(map)@.remove(old(self).from),
            final(self).from == old(self).from,
            final(self).phase == ForwarderPhase::Closed,
    {
        self.phase = ForwarderPhase::Closed;
        let _ = map.remove(&self.from);
    }
}

// ---- laws ----

/// A socket is opened only for a visitor that is not in the port map, a packet is
/// handed only to a visitor that is, and a step of the channel takes no visitor out
/// of the map but one whose forwarder refused a packet.
pub proof fn visitors_are_served_by_the_map<H>(
    before: UdpChannel,
    map: Map<SocketAddr, H>,
    event: UdpEvent<H>,
    after: UdpChannel,
    new_map: Map<SocketAddr, H>,
    action: UdpAction,
    visitor: SocketAddr,
)
    requires
        udp_step(before, map, event, after, new_map, action),
    ensures
        action is ConnectLocal ==> (after.phase matches UdpPhase::Connecting(packet)
            && !new_map.dom().contains(packet.from)),
        action matches UdpAction::Deliver { from, data } ==> map.dom().contains(from),
        map.dom().contains(visitor) && !new_map.dom().contains(visitor) ==> event is Refused
            && before.phase == UdpPhase::Delivering(visitor),
{
}

/// The first packet of a visitor is not lost: once a socket is open for the
/// visitor, the visitor is in the port map and gets the packet, as long as its
/// forwarder has not left in between.
pub proof fn first_packet_is_delivered<H>(
    s0: UdpChannel,
    map0: Map<SocketAddr, H>,
    packet: UdpTraffic,
    s1: UdpChannel,
    map1: Map<SocketAddr, H>,
    a1: UdpAction,
    handle: H,
    s2: UdpChannel,
    map2: Map<SocketAddr, H>,
    a2: UdpAction,
    s3: UdpChannel,
    map3: Map<SocketAddr, H>,
    a3: UdpAction,
)
    requires
        udp_step(s0, map0, UdpEvent::PacketRead(Ok(packet)), s1, map1, a1),
        !map0.dom().contains(packet.from),
        udp_step(s1, map1, UdpEvent::Connected(Ok(handle)), s2, map2, a2),
        udp_step(s2, map2, UdpEvent::<H>::Noted, s3, map3, a3),
    ensures
        a1 == UdpAction::ConnectLocal,
        a2 == UdpAction::StartForwarder(packet.from),
        a3 == (UdpAction::Deliver { from: packet.from, data: packet.data }),
        map3 == map0.insert(packet.from, handle),
{
}

/// A packet for which no socket can be opened is dropped: the port map stays as
/// it is, and the channel goes on with the next packet.
pub proof fn packet_without_socket_is_dropped<H>(
    s0: UdpChannel,
    map0: Map<SocketAddr, H>,
    packet: UdpTraffic,
    s1: UdpChannel,
    map1: Map<SocketAddr, H>,
    a1: UdpAction,
    cause: String,
    s2: UdpChannel,
    map2: Map<SocketAddr, H>,
    a2: UdpAction,
    s3: UdpChannel,
    map3: Map<SocketAddr, H>,
    a3: UdpAction,
)
    requires
        udp_step(s0, map0, UdpEvent::PacketRead(Ok(packet)), s1, map1, a1),
        !map0.dom().contains(packet.from),
        udp_step(s1, map1, UdpEvent::Connected(Err(cause)), s2, map2, a2),
        udp_step(s2, map2, UdpEvent::<H>::Noted, s3, map3, a3),
    ensures
        a2 == UdpAction::Report(cause),
        a3 == UdpAction::ReadLength,
        map3 == map0,
{
}

/// A visitor whose forwarder has left gets a new one with its next packet; the
/// others keep theirs.
pub proof fn forgotten_visitor_starts_over<H>(
    map: Map<SocketAddr, H>,
    visitor: SocketAddr,
    other: SocketAddr,
    s0: UdpChannel,
    packet: UdpTraffic,
    s1: UdpChannel,
    new_map: Map<SocketAddr, H>,
    action: UdpAction,
)
    requires
        packet.from == visitor,
        other != visitor,
        udp_step(
            s0,
            map.remove(visitor),
            UdpEvent::PacketRead(Ok(packet)),
            s1,
            new_map,
            action,
        ),
    ensures
        action == UdpAction::ConnectLocal,
        map.dom().contains(other) ==> new_map.dom().contains(other) && new_map[other] == map[other],
{
}

/// A visitor whose forwarder failed gets a new socket and a new forwarder with its
/// next packet, and that forwarder gets the packet; the others keep theirs.
pub proof fn refused_visitor_gets_a_new_forwarder<H>(
    s0: UdpChannel,
    map0: Map<SocketAddr, H>,
    packet: UdpTraffic,
    s1: UdpChannel,
    map1: Map<SocketAddr, H>,
    a1: UdpAction,
    s2: UdpChannel,
    map2: Map<SocketAddr, H>,
    a2: UdpAction,
    handle: H,
    s3: UdpChannel,
    map3: Map<SocketAddr, H>,
    a3: UdpAction,
    s4: UdpChannel,
    map4: Map<SocketAddr, H>,
    a4: UdpAction,
)
    requires
        udp_step(s0, map0, UdpEvent::PacketRead(Ok(packet)), s1, map1, a1),
        map0.dom().contains(packet.from),
        udp_step(s1, map1, UdpEvent::<H>::Refused(packet.data), s2, map2, a2),
        udp_step(s2, map2, UdpEvent::Connected(Ok(handle)), s3, map3, a3),
        udp_step(s3, map3, UdpEvent::<H>::Noted, s4, map4, a4),
    ensures
        a1 == (UdpAction::Deliver { from: packet.from, data: packet.data }),
        a2 == UdpAction::ConnectLocal,
        a3 == UdpAction::StartForwarder(packet.from),
        a4 == (UdpAction::Deliver { from: packet.from, data: packet.data }),
        map4 == map0.insert(packet.from, handle),
{
    assert(map0.remove(packet.from).insert(packet.from, handle) =~= map0.insert(
        packet.from,
        handle,
    ));
}

/// A forwarder leaves the port map exactly when the server's packets end, when
/// its socket fails, or when it was idle; what ends it otherwise is a failed send.
pub proof fn forwarder_leaves_or_fails(
    before: Forwarder,
    buf: Seq<u8>,
    event: ForwarderEvent,
    after: Forwarder,
    action: ForwarderAction,
)
    requires
        forwarder_step(before, buf, event, after, action),
    ensures
        action is CleanUp <==> (event == ForwarderEvent::Inbound(None)
            || event matches ForwarderEvent::Received(Err(_))
            || event is IdleElapsed),
        action is Fail <==> (event matches ForwarderEvent::SentToService(Err(_))
            || event matches ForwarderEvent::SentToServer(Err(_))),
        after.phase == ForwarderPhase::Leaving <==> action is CleanUp,
        after.phase == ForwarderPhase::Closed <==> action is Fail,
{
}

/// The history of a UDP channel: the state after [`UdpChannel::begin`] and after
/// each step, with the event and the action of each step, and with the port map
/// before and after it. Between the steps forwarders may have changed the map.
pub struct UdpHistory<H> {
    pub states: Seq<UdpChannel>,
    pub maps_before: Seq<Map<SocketAddr, H>>,
    pub events: Seq<UdpEvent<H>>,
    pub actions: Seq<UdpAction>,
    pub maps_after: Seq<Map<SocketAddr, H>>,
}

impl<H> UdpHistory<H> {
    /// A refused packet comes back as it was.
    pub open spec fn gives_back(self, i: int) -> bool {
        self.events[i] matches UdpEvent::Refused(data) ==> (self.actions[i
            - 1] matches UdpAction::Deliver { from, data: given } && outside::bytes_held(data)
            == outside::bytes_held(given))
    }

    pub open spec fn valid(self) -> bool {
        &&& self.states.len() == self.events.len() + 1
        &&& self.maps_before.len() == self.events.len()
        &&& self.actions.len() == self.events.len()
        &&& self.maps_after.len() == self.events.len()
        &&& self.states[0].phase == UdpPhase::ReadingLength
        &&& forall|i: int|
            0 <= i < self.events.len() ==> self.gives_back(i) && udp_step(
                #[trigger] self.states[i],
                self.maps_before[i],
                self.events[i],
                self.states[i + 1],
                self.maps_after[i],
                self.actions[i],
            )
    }

    /// What was read from the server for `visitor` in the first `n` steps.
    pub open spec fn arrived(self, visitor: SocketAddr, n: nat) -> Seq<Seq<u8>>
        decreases n,
    {
        if n == 0 {
            Seq::empty()
        } else {
            let before = self.arrived(visitor, (n - 1) as nat);
            match self.events[n - 1] {
                UdpEvent::PacketRead(Ok(packet)) if packet.from == visitor => before.push(
                    outside::bytes_held(packet.data),
                ),
                _ => before,
            }
        }
    }

    /// What was handed to forwarders of `visitor` in the first `n` steps: what was
    /// to be delivered to the visitor, and was.
    pub open spec fn delivered(self, visitor: SocketAddr, n: nat) -> Seq<Seq<u8>>
        decreases n,
    {
        if n == 0 {
            Seq::empty()
        } else {
            let before = self.delivered(visitor, (n - 1) as nat);
            match (self.events[n - 1], self.actions[n - 2]) {
                (UdpEvent::Delivered, UdpAction::Deliver { from, data }) if from == visitor =>
                    before.push(outside::bytes_held(data)),
                _ => before,
            }
        }
    }

    /// The packet that was read and is not dealt with yet after `n` steps: its
    /// visitor and its bytes.
    spec fn pending(self, n: nat) -> Option<(SocketAddr, Seq<u8>)> {
        match self.states[n as int].phase {
            UdpPhase::Connecting(packet) | UdpPhase::Routing(packet) => Some(
                (packet.from, outside::bytes_held(packet.data)),
            ),
            UdpPhase::Delivering(from) => Some(
                (from, outside::bytes_held(self.actions[n - 1]->data)),
            ),
            _ => None,
        }
    }
}

/// The elements of `part` stand in `whole` at the positions `at`, in this order.
pub open spec fn chosen_at<A>(part: Seq<A>, whole: Seq<A>, at: Seq<int>) -> bool {
    &&& at.len() == part.len()
    &&& forall|i: int| 0 <= i < at.len() ==> 0 <= #[trigger] at[i] < whole.len()
    &&& forall|i: int| 0 <= i < at.len() ==> part[i] == whole[#[trigger] at[i]]
    &&& forall|i: int, j: int| 0 <= i < j < at.len() ==> at[i] < at[j]
}

/// `part` is what is left of `whole` when some elements are taken out.
pub open spec fn is_subsequence<A>(part: Seq<A>, whole: Seq<A>) -> bool {
    exists|at: Seq<int>| chosen_at(part, whole, at)
}

proof fn lemma_more_of_both<A>(part: Seq<A>, whole: Seq<A>, a: A)
    requires
        is_subsequence(part, whole),
    ensures
        is_subsequence(part.push(a), whole.push(a)),
{
    let at = choose|at: Seq<int>| chosen_at(part, whole, at);
    assert(chosen_at(part.push(a), whole.push(a), at.push(whole.len() as int)));
}

proof fn lemma_more_of_whole<A>(part: Seq<A>, whole: Seq<A>, a: A)
    requires
        is_subsequence(part, whole),
    ensures
        is_subsequence(part, whole.push(a)),
{
    let at = choose|at: Seq<int>| chosen_at(part, whole, at);
    assert(chosen_at(part, whole.push(a), at));
}

/// What has arrived before the pending packet covers what was delivered.
proof fn lemma_delivery<H>(h: UdpHistory<H>, visitor: SocketAddr, n: nat)
    requires
        h.valid(),
        n <= h.events.len(),
    ensures
        h.states[n as int].phase matches UdpPhase::Delivering(from) ==> n > 0 && (h.actions[n
            - 1] matches UdpAction::Deliver { from: f, data } && f == from),
        match h.pending(n) {
            Some((from, data)) if from == visitor => {
                let arrived = h.arrived(visitor, n);
                &&& arrived.len() > 0
                &&& arrived.last() == data
                &&& is_subsequence(h.delivered(visitor, n), arrived.drop_last())
            },
            _ => is_subsequence(h.delivered(visitor, n), h.arrived(visitor, n)),
        },
    decreases n,
{
    if n == 0 {
        assert(chosen_at(Seq::<Seq<u8>>::empty(), Seq::<Seq<u8>>::empty(), Seq::<int>::empty()));
    } else {
        let m = (n - 1) as nat;
        lemma_delivery(h, visitor, m);
        let before = h.states[m as int];
        assert(udp_step(
            before,
            h.maps_before[m as int],
            h.events[m as int],
            h.states[n as int],
            h.maps_after[m as int],
            h.actions[m as int],
        ));
        assert(h.gives_back(m as int));
        let (arrived, delivered) = (h.arrived(visitor, m), h.delivered(visitor, m));
        match h.events[m as int] {
            UdpEvent::PacketRead(Ok(packet)) => {
                if packet.from == visitor {
                    let whole = h.arrived(visitor, n);
                    assert(whole.drop_last() =~= arrived);
                }
            },
            UdpEvent::Delivered => {
                if before.phase == UdpPhase::Delivering(visitor) {
                    lemma_more_of_both(delivered, arrived.drop_last(), arrived.last());
                    assert(arrived.drop_last().push(arrived.last()) =~= arrived);
                }
            },
            UdpEvent::Noted => {
                let (from, _) = h.pending(m)->0;
                if from == visitor && h.pending(n) is None {
                    lemma_more_of_whole(delivered, arrived.drop_last(), arrived.last());
                    assert(arrived.drop_last().push(arrived.last()) =~= arrived);
                }
            },
            _ => {},
        }
    }
}

/// What the forwarders of a visitor get is what was read from the server for that
/// visitor, byte for byte and in the order in which it arrived. Some packets may be
/// missing; none comes twice, and none is another visitor's.
pub proof fn visitors_get_their_packets_in_order<H>(
    h: UdpHistory<H>,
    visitor: SocketAddr,
    n: nat,
)
    requires
        h.valid(),
        n <= h.events.len(),
    ensures
        is_subsequence(h.delivered(visitor, n), h.arrived(visitor, n)),
{
    lemma_delivery(h, visitor, n);
    match h.pending(n) {
        Some((from, data)) if from == visitor => {
            let arrived = h.arrived(visitor, n);
            lemma_more_of_whole(h.delivered(visitor, n), arrived.drop_last(), arrived.last());
            assert(arrived.drop_last().push(arrived.last()) =~= arrived);
        },
        _ => {},
    }
}

} // verus!
