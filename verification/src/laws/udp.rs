//! Laws of UDP forwarding.

use vstd::prelude::*;

use crate::addr::SocketAddr;
use crate::error::ClientError;
use crate::outside;
use crate::udp::{
    forwarder_buffer, outbound_step, Forwarder, ForwarderAction, ForwarderEvent, ForwarderPhase,
    OutboundAction, OutboundEvent, UdpAction, UdpChannel, UdpEvent, UdpHistory, UdpPhase,
    UdpPortMap, UdpTraffic,
};

verus! {

/// A channel begins by reading the length of a header.
pub proof fn udp_channel_begins_by_reading(
    fresh: UdpChannel,
    channel: &mut UdpChannel,
    action: UdpAction,
)
    requires
        call_ensures(UdpChannel::new, (), fresh),
        call_ensures(UdpChannel::begin, (channel,), action),
    ensures
        fresh.phase is Idle,
        action is ReadLength,
        final(channel).phase is ReadingLength,
{
}

/// Each action has its one reason. A packet is read with the length that was read,
/// and the next length is read when a packet is dealt with. A socket is opened
/// exactly for a packet whose visitor is not in the port map, or whose forwarder
/// refused it; a forwarder is started with each socket, and a failure to open one is
/// told with its cause.
pub proof fn udp_actions_have_their_reasons<H>(
    channel: &mut UdpChannel,
    map: &mut UdpPortMap<H>,
    event: UdpEvent<H>,
    action: UdpAction,
)
    requires
        call_ensures(UdpChannel::step::<H>, (channel, map, event), action),
    ensures
        action is ReadPacket <==> (event matches UdpEvent::LengthRead(Ok(_))),
        event matches UdpEvent::LengthRead(Ok(len)) ==> action == UdpAction::ReadPacket(len),
        event is Delivered ==> action is ReadLength,
        event matches UdpEvent::PacketRead(Ok(packet)) ==> (action is ConnectLocal
            <==> !old(map)@.dom().contains(packet.from)),
        event is Refused ==> action is ConnectLocal,
        action is ConnectLocal ==> event is PacketRead || event is Refused,
        action is StartForwarder <==> (event matches UdpEvent::Connected(Ok(_))),
        event matches UdpEvent::Connected(Err(cause)) ==> action == UdpAction::Report(cause),
        action is Report ==> event is Connected,
        action is ReadLength ==> event is Delivered || event is Noted,
{
}

/// A packet goes to the visitor that it came from, with its own data, and to no
/// other: at once where the visitor is in the port map, and else when a socket was
/// opened or refused for it, if the visitor is in the map by then.
pub proof fn packet_goes_to_its_visitor<H>(
    channel: &mut UdpChannel,
    map: &mut UdpPortMap<H>,
    event: UdpEvent<H>,
    action: UdpAction,
)
    requires
        call_ensures(UdpChannel::step::<H>, (channel, map, event), action),
    ensures
        event matches UdpEvent::PacketRead(Ok(packet)) ==> {
            &&& old(map)@.dom().contains(packet.from) ==> action == (UdpAction::Deliver {
                from: packet.from,
                data: packet.data,
            })
            &&& !old(map)@.dom().contains(packet.from) ==> final(channel).phase
                == UdpPhase::Connecting(packet)
        },
        old(channel).phase matches UdpPhase::Connecting(packet) ==> {
            &&& final(channel).phase == UdpPhase::Routing(packet)
            &&& action matches UdpAction::StartForwarder(from) ==> from == packet.from
        },
        old(channel).phase matches UdpPhase::Routing(packet) ==> {
            &&& old(map)@.dom().contains(packet.from) ==> action == (UdpAction::Deliver {
                from: packet.from,
                data: packet.data,
            })
            &&& !old(map)@.dom().contains(packet.from) ==> action is ReadLength
        },
        old(channel).phase matches UdpPhase::Delivering(from) ==> (event matches UdpEvent::Refused(
            data,
        ) ==> final(channel).phase == UdpPhase::Connecting(UdpTraffic { from, data })),
        action is Deliver ==> event is PacketRead || event is Noted,
        action matches UdpAction::Deliver { from, data } ==> final(channel).phase
            == UdpPhase::Delivering(from),
{
}

/// The port map gains a visitor exactly when a socket was opened for one of its
/// packets, with the handle of that socket, and loses one exactly when its forwarder
/// refused a packet. Every other visitor keeps its handle.
pub proof fn port_map_follows_the_sockets<H>(
    channel: &mut UdpChannel,
    map: &mut UdpPortMap<H>,
    event: UdpEvent<H>,
    action: UdpAction,
    visitor: SocketAddr,
)
    requires
        call_ensures(UdpChannel::step::<H>, (channel, map, event), action),
    ensures
        match (old(channel).phase, event) {
            (UdpPhase::Connecting(packet), UdpEvent::Connected(Ok(handle))) if packet.from
                == visitor => final(map)@.dom().contains(visitor) && final(map)@[visitor] == handle,
            (UdpPhase::Delivering(from), UdpEvent::Refused(_)) if from == visitor =>
            !final(map)@.dom().contains(visitor),
            _ => {
                &&& final(map)@.dom().contains(visitor) <==> old(map)@.dom().contains(visitor)
                &&& final(map)@.dom().contains(visitor) ==> final(map)@[visitor]
                    == old(map)@[visitor]
            },
        },
{
}

/// A channel fails exactly when it can read no more, with the cause; where a packet
/// was cut off, that is said.
pub proof fn udp_failures_keep_their_cause<H>(
    channel: &mut UdpChannel,
    map: &mut UdpPortMap<H>,
    event: UdpEvent<H>,
    action: UdpAction,
)
    requires
        call_ensures(UdpChannel::step::<H>, (channel, map, event), action),
    ensures
        match event {
            UdpEvent::LengthRead(Err(cause)) => action == UdpAction::Fail(ClientError::Io(cause)),
            UdpEvent::PacketRead(Err(cause)) => action == UdpAction::Fail(
                ClientError::ReadUdpTraffic(cause),
            ),
            _ => action !is Fail,
        },
        action is Fail <==> final(channel).phase is Closed,
{
}

/// After each action the channel waits for what comes of it, and takes any outcome.
pub proof fn udp_channel_takes_every_answer<H>(
    channel: &mut UdpChannel,
    map: &mut UdpPortMap<H>,
    event: UdpEvent<H>,
    action: UdpAction,
    next: &mut UdpChannel,
    next_map: &mut UdpPortMap<H>,
    answer: UdpEvent<H>,
)
    requires
        call_ensures(UdpChannel::step::<H>, (channel, map, event), action),
        *old(next) == *final(channel),
        match action {
            UdpAction::ReadLength => answer is LengthRead,
            UdpAction::ReadPacket(_) => answer is PacketRead,
            UdpAction::ConnectLocal => answer is Connected,
            UdpAction::StartForwarder(_) | UdpAction::Report(_) => answer is Noted,
            UdpAction::Deliver { .. } => answer is Delivered || answer is Refused,
            UdpAction::Fail(_) => false,
        },
    ensures
        call_requires(UdpChannel::step::<H>, (next, next_map, answer)),
{
}

/// The first answer is taken too.
pub proof fn udp_channel_takes_the_first_answer<H>(
    channel: &mut UdpChannel,
    action: UdpAction,
    next: &mut UdpChannel,
    map: &mut UdpPortMap<H>,
    read: Result<u8, String>,
)
    requires
        call_ensures(UdpChannel::begin, (channel,), action),
        *old(next) == *final(channel),
    ensures
        call_requires(UdpChannel::step::<H>, (next, map, UdpEvent::<H>::LengthRead(read))),
{
}

/// Over a whole run no packet of a visitor in the port map is passed over: it is
/// handed to the visitor as it is read.
pub proof fn known_visitor_gets_every_packet<H>(h: UdpHistory<H>, n: int, packet: UdpTraffic)
    requires
        h.valid(),
        0 <= n < h.events.len(),
        h.events[n] == UdpEvent::<H>::PacketRead(Ok(packet)),
        h.maps_before[n].dom().contains(packet.from),
    ensures
        h.actions[n] == (UdpAction::Deliver { from: packet.from, data: packet.data }),
        n + 1 < h.events.len() ==> h.events[n + 1] is Delivered || h.events[n + 1] is Refused,
{
    let (at_n, after) = (h.states[n], h.states[n + 1]);
    assert(crate::udp::udp_step(
        at_n,
        h.maps_before[n],
        h.events[n],
        after,
        h.maps_after[n],
        h.actions[n],
    ));
    if n + 1 < h.events.len() {
        assert(crate::udp::udp_step(
            after,
            h.maps_before[n + 1],
            h.events[n + 1],
            h.states[n + 2],
            h.maps_after[n + 1],
            h.actions[n + 1],
        ));
    }
}

/// Each packet for the server is written as it is; writing goes on after a success,
/// stops when there are no more, and is given up with the cause of a failure.
pub proof fn outbound_packets_are_written_as_they_are(event: OutboundEvent, r: OutboundAction)
    requires
        call_ensures(outbound_step, (event,), r),
    ensures
        event matches OutboundEvent::Queued(Some(packet)) ==> r == OutboundAction::Write(packet),
        r is Write ==> (event matches OutboundEvent::Queued(Some(_))),
        r is Stop <==> event == OutboundEvent::Queued(None),
        r is Next <==> (event matches OutboundEvent::Written(Ok(_))),
        event matches OutboundEvent::Written(Err(cause)) ==> r == OutboundAction::Abandon(
            ClientError::ForwardUdpTraffic(cause),
        ),
        call_requires(outbound_step, (event,)),
{
}

/// A forwarder's buffer has 2048 bytes, all zero.
pub proof fn buffer_is_large_and_blank(r: bytes::BytesMut)
    requires
        call_ensures(forwarder_buffer, (), r),
    ensures
        outside::buffer_held(r).len() == 2048,
        forall|i: int| 0 <= i < 2048 ==> #[trigger] outside::buffer_held(r)[i] == 0,
{
}

/// A forwarder is idle for a minute before it leaves, and 1024 packets may wait.
pub proof fn forwarding_has_its_limits()
    ensures
        crate::udp::UDP_TIMEOUT == 60,
        crate::udp::UDP_SENDQ_SIZE == 1024,
{
}

/// A new forwarder is its visitor's, and waits.
pub proof fn forwarder_is_its_visitors(from: SocketAddr, r: Forwarder)
    requires
        call_ensures(Forwarder::new, (from,), r),
    ensures
        r.from == from,
        r.phase is Waiting,
{
}

/// A forwarder carries bytes unchanged. What comes from the server goes to the local
/// service as it is. What the service sent goes to the server under the visitor's
/// address: exactly the bytes that were filled. After each it waits for more.
pub proof fn forwarder_carries_bytes_unchanged(
    forwarder: &mut Forwarder,
    buf: bytes::BytesMut,
    event: ForwarderEvent,
    action: ForwarderAction,
)
    requires
        call_ensures(Forwarder::step, (forwarder, &buf, event), action),
    ensures
        final(forwarder).from == old(forwarder).from,
        action is SendToService <==> (event matches ForwarderEvent::Inbound(Some(_))),
        event matches ForwarderEvent::Inbound(Some(data)) ==> action
            == ForwarderAction::SendToService(data) && final(forwarder).phase is SendingToService,
        action is SendToServer <==> (event matches ForwarderEvent::Received(Ok(_))),
        event matches ForwarderEvent::Received(Ok(len)) ==> {
            &&& action matches ForwarderAction::SendToServer(packet) && packet.from
                == old(forwarder).from && outside::bytes_held(packet.data)
                == outside::buffer_held(buf).subrange(0, len as int)
            &&& final(forwarder).phase is SendingToServer
        },
        action is Wait <==> (event matches ForwarderEvent::SentToService(Ok(_)))
            || (event matches ForwarderEvent::SentToServer(Ok(_))),
        action is Wait ==> final(forwarder).phase is Waiting,
{
}

/// A forwarder leaves the port map exactly when the server's packets end, when its
/// socket gives no more, or when it was idle; it fails exactly when it cannot send,
/// with the cause.
pub proof fn forwarder_ends_for_a_reason(
    forwarder: &mut Forwarder,
    buf: bytes::BytesMut,
    event: ForwarderEvent,
    action: ForwarderAction,
)
    requires
        call_ensures(Forwarder::step, (forwarder, &buf, event), action),
    ensures
        action is CleanUp <==> (event == ForwarderEvent::Inbound(None) || (
        event matches ForwarderEvent::Received(Err(_))) || event is IdleElapsed),
        action is CleanUp <==> final(forwarder).phase is Leaving,
        match event {
            ForwarderEvent::SentToService(Err(cause)) | ForwarderEvent::SentToServer(Err(cause)) =>
            action == ForwarderAction::Fail(ClientError::Io(cause)) && final(forwarder).phase
                is Closed,
            _ => action !is Fail && final(forwarder).phase !is Closed,
        },
{
}

/// A forwarder that leaves takes its own visitor out of the port map, and no other.
pub proof fn leaving_forwarder_takes_its_visitor<H>(
    forwarder: &mut Forwarder,
    map: &mut UdpPortMap<H>,
    visitor: SocketAddr,
)
    requires
        call_ensures(Forwarder::clean_up::<H>, (forwarder, map), ()),
    ensures
        !final(map)@.dom().contains(old(forwarder).from),
        visitor != old(forwarder).from ==> {
            &&& final(map)@.dom().contains(visitor) <==> old(map)@.dom().contains(visitor)
            &&& final(map)@.dom().contains(visitor) ==> final(map)@[visitor] == old(map)@[visitor]
        },
        final(forwarder).phase is Closed,
        final(forwarder).from == old(forwarder).from,
{
}

/// A forwarder takes whatever comes while it waits, as long as no more bytes were
/// filled than the buffer has, and any outcome of a send; one that is to leave can
/// always be cleaned up.
pub proof fn forwarder_takes_every_answer<H>(
    forwarder: &mut Forwarder,
    buf: bytes::BytesMut,
    answer: ForwarderEvent,
    map: &mut UdpPortMap<H>,
)
    requires
        match old(forwarder).phase {
            ForwarderPhase::Waiting => match answer {
                ForwarderEvent::Inbound(_) | ForwarderEvent::IdleElapsed => true,
                ForwarderEvent::Received(Err(_)) => true,
                ForwarderEvent::Received(Ok(len)) => len <= outside::buffer_held(buf).len(),
                _ => false,
            },
            ForwarderPhase::SendingToService => answer is SentToService,
            ForwarderPhase::SendingToServer => answer is SentToServer,
            ForwarderPhase::Leaving => true,
            ForwarderPhase::Closed => false,
        },
    ensures
        if old(forwarder).phase is Leaving {
            call_requires(Forwarder::clean_up::<H>, (forwarder, map))
        } else {
            call_requires(Forwarder::step, (forwarder, &buf, answer))
        },
{
}

} // verus!
