//! Laws of data channels.

use vstd::prelude::*;

use crate::addr::SocketAddr;
use crate::config::ServiceType;
use crate::data::{DataAction, DataChannel, DataEvent, DataHistory, DataPhase, RunDataChannelArgs};
use crate::error::ClientError;
use crate::protocol::DataChannelCmd;

verus! {

/// A new channel has its arguments and has done nothing.
pub proof fn data_channel_keeps_its_arguments<T>(args: RunDataChannelArgs<T>, r: DataChannel<T>)
    requires
        call_ensures(DataChannel::<T>::new, (args,), r),
    ensures
        r.args == args,
        r.phase is Idle,
{
}

/// A channel dials the address that its arguments give, by the name `localhost`,
/// from port 4444 of any interface.
pub proof fn data_channel_dials_its_server<T>(channel: &mut DataChannel<T>, action: DataAction)
    requires
        call_ensures(DataChannel::<T>::begin, (channel,), action),
    ensures
        action matches DataAction::Dial { bind_addr, remote_addr, server_name } && {
            &&& bind_addr == (SocketAddr::V4 { ip4: 0, port: 4444 })
            &&& remote_addr == old(channel).args.remote_addr
            &&& server_name@ == "localhost"@
        },
        final(channel).args == old(channel).args,
        final(channel).phase is Dialing,
{
}

/// The bytes with which a data channel joins the session of a key: a data channel's
/// kind, version 1, and the key.
pub open spec fn joins_with(bytes: Seq<u8>, key: Seq<u8>) -> bool {
    &&& bytes.len() == 37
    &&& bytes[0] == 1 && bytes[1] == 0 && bytes[2] == 0 && bytes[3] == 0
    &&& bytes[4] == 1
    &&& bytes.skip(5) == key
}

/// Each action has its one reason. A stream is opened on a connection, the hello
/// with the session key is sent on a stream, and a command is read once the hello is
/// sent. The local service is connected to exactly when the server asks for TCP and
/// the service carries it, whatever else its configuration holds, and traffic is
/// copied exactly when that connection stands. The channel finishes when the copying
/// ends, or when the server asks for something else than TCP.
pub proof fn data_actions_have_their_reasons<T>(
    channel: &mut DataChannel<T>,
    event: DataEvent,
    action: DataAction,
)
    requires
        call_ensures(DataChannel::<T>::step, (channel, event), action),
    ensures
        action is OpenStream <==> (event matches DataEvent::Dialed(Ok(_))),
        action is Send <==> event is StreamOpened,
        action matches DataAction::Send(bytes) ==> joins_with(
            bytes@,
            old(channel).args.session_key@,
        ),
        action is ReadCmd <==> (event matches DataEvent::Sent(Ok(_))),
        action is ConnectLocal <==> (event == DataEvent::CmdRead(Ok(DataChannelCmd::StartForwardTcp))
            && old(channel).args.service.service_type is Tcp),
        action matches DataAction::ConnectLocal(addr) ==> addr
            == old(channel).args.service.local_addr,
        action is Copy <==> (event matches DataEvent::LocalConnected(Ok(_))),
        action is Finish <==> (event is Copied || event == DataEvent::CmdRead(
            Ok(DataChannelCmd::StartForwardUdp),
        )),
        action !is Dial,
        final(channel).args == old(channel).args,
{
    if action is Send {
        let bytes = action->Send_0;
        assert(bytes@.skip(5) =~= old(channel).args.session_key@);
    }
}

/// A failure is told with its own cause: the address of the local service where that
/// could not be reached, the mismatch where TCP was asked of another service, and
/// the bare cause otherwise. Nothing else fails.
pub proof fn data_failures_keep_their_cause<T>(
    channel: &mut DataChannel<T>,
    event: DataEvent,
    action: DataAction,
)
    requires
        call_ensures(DataChannel::<T>::step, (channel, event), action),
    ensures
        match event {
            DataEvent::Dialed(Err(cause)) | DataEvent::Sent(Err(cause)) | DataEvent::CmdRead(
                Err(cause),
            ) => action == DataAction::Fail(ClientError::Io(cause)),
            DataEvent::LocalConnected(Err(cause)) => action == DataAction::Fail(
                ClientError::Connect { addr: old(channel).args.service.local_addr, cause },
            ),
            DataEvent::CmdRead(Ok(DataChannelCmd::StartForwardTcp)) => action is Fail ==> action
                == DataAction::Fail(ClientError::ExpectTcp)
                && old(channel).args.service.service_type is Udp,
            _ => action !is Fail,
        },
{
}

/// After each action the channel waits for what comes of it, and takes any outcome.
pub proof fn data_channel_takes_every_answer<T>(
    channel: &mut DataChannel<T>,
    event: DataEvent,
    action: DataAction,
    next: &mut DataChannel<T>,
    answer: DataEvent,
)
    requires
        call_ensures(DataChannel::<T>::step, (channel, event), action),
        *old(next) == *final(channel),
        match action {
            DataAction::OpenStream => answer is StreamOpened,
            DataAction::Send(_) => answer is Sent,
            DataAction::ReadCmd => answer is CmdRead,
            DataAction::ConnectLocal(_) => answer is LocalConnected,
            DataAction::Copy => answer is Copied,
            _ => false,
        },
    ensures
        call_requires(DataChannel::<T>::step, (next, answer)),
{
}

/// The first answer, to the dialing, is taken too.
pub proof fn data_channel_takes_any_dialing<T>(
    channel: &mut DataChannel<T>,
    action: DataAction,
    next: &mut DataChannel<T>,
    dialed: Result<(), String>,
)
    requires
        call_ensures(DataChannel::<T>::begin, (channel,), action),
        *old(next) == *final(channel),
    ensures
        call_requires(DataChannel::<T>::step, (next, DataEvent::Dialed(dialed))),
{
}

proof fn lemma_args<T>(h: DataHistory<T>, n: int)
    requires
        h.valid(),
        0 <= n <= h.events.len(),
    ensures
        h.states[n].args == h.states[0].args,
    decreases n,
{
    if n > 0 {
        lemma_args(h, n - 1);
        let before = h.states[n - 1];
        assert(crate::data::data_step(before, h.events[n - 1], h.states[n], h.actions[n - 1]));
    }
}

/// Once a channel has dialed, it opens a stream, sends its hello, and reads a
/// command, in this order and as far as nothing fails.
pub proof fn data_channel_joins_first<T>(h: DataHistory<T>)
    requires
        h.valid(),
        h.events.len() >= 3,
    ensures
        h.events[0] matches DataEvent::Dialed(Ok(_)),
        h.actions[0] is OpenStream,
        h.events[1] is StreamOpened,
        h.actions[1] matches DataAction::Send(bytes) && joins_with(
            bytes@,
            h.states[0].args.session_key@,
        ),
        h.events[2] is Sent,
        (h.events[2] matches DataEvent::Sent(Ok(_))) ==> h.actions[2] is ReadCmd,
        h.events.len() > 3 ==> h.events[3] is CmdRead,
{
    let (s0, s1, s2) = (h.states[0], h.states[1], h.states[2]);
    assert(crate::data::data_step(s0, h.events[0], s1, h.actions[0]));
    assert(crate::data::data_step(s1, h.events[1], s2, h.actions[1]));
    assert(crate::data::data_step(s2, h.events[2], h.states[3], h.actions[2]));
    lemma_args(h, 1);
    let bytes = h.actions[1]->Send_0;
    assert(bytes@.skip(5) =~= s0.args.session_key@);
    if h.events.len() > 3 {
        let s3 = h.states[3];
        assert(crate::data::data_step(s3, h.events[3], h.states[4], h.actions[3]));
    }
}

/// A request for TCP traffic of a service that carries it leads to the local
/// service, whatever else its configuration holds: the channel connects to the
/// service's address, copies once that stands, and finishes when the copying ends.
pub proof fn tcp_request_reaches_the_local_service<T>(h: DataHistory<T>, n: int)
    requires
        h.valid(),
        0 <= n < h.events.len(),
        h.events[n] == DataEvent::CmdRead(Ok(DataChannelCmd::StartForwardTcp)),
        h.states[0].args.service.service_type == ServiceType::Tcp,
    ensures
        n == 3,
        h.actions[n] == DataAction::ConnectLocal(h.states[0].args.service.local_addr),
        n + 1 < h.events.len() ==> (h.events[n + 1] matches DataEvent::LocalConnected(connected)
            && match connected {
            Ok(_) => h.actions[n + 1] == DataAction::Copy,
            Err(cause) => n + 2 == h.events.len() && h.actions[n + 1] == DataAction::Fail(
                ClientError::Connect { addr: h.states[0].args.service.local_addr, cause },
            ),
        }),
        n + 2 < h.events.len() ==> h.events[n + 2] is Copied && h.actions[n + 2]
            == DataAction::Finish && n + 3 == h.events.len(),
{
    lemma_args(h, n);
    lemma_order(h, n);
    let (s0, s1) = (h.states[n], h.states[n + 1]);
    assert(crate::data::data_step(s0, h.events[n], s1, h.actions[n]));
    if n + 1 < h.events.len() {
        lemma_args(h, n + 1);
        let s2 = h.states[n + 2];
        assert(crate::data::data_step(s1, h.events[n + 1], s2, h.actions[n + 1]));
        if n + 2 < h.events.len() {
            let s3 = h.states[n + 3];
            assert(crate::data::data_step(s2, h.events[n + 2], s3, h.actions[n + 2]));
            if n + 3 < h.events.len() {
                assert(crate::data::data_step(
                    s3,
                    h.events[n + 3],
                    h.states[n + 4],
                    h.actions[n + 3],
                ));
            }
        }
    }
}

proof fn lemma_order<T>(h: DataHistory<T>, n: int)
    requires
        h.valid(),
        0 <= n <= h.events.len(),
    ensures
        match h.states[n].phase {
            DataPhase::Idle => false,
            DataPhase::Dialing => n == 0,
            DataPhase::OpeningStream => n == 1,
            DataPhase::SendingHello => n == 2,
            DataPhase::ReadingCmd => n == 3,
            DataPhase::ConnectingLocal => n == 4,
            DataPhase::Copying => n == 5,
            DataPhase::Closed => n == h.events.len(),
        },
    decreases n,
{
    if n > 0 {
        lemma_order(h, n - 1);
        let before = h.states[n - 1];
        assert(crate::data::data_step(before, h.events[n - 1], h.states[n], h.actions[n - 1]));
    }
    if n < h.events.len() {
        let at_n = h.states[n];
        assert(crate::data::data_step(at_n, h.events[n], h.states[n + 1], h.actions[n]));
    }
}

/// A channel that finished or failed does nothing more.
pub proof fn data_channel_ends_once<T>(h: DataHistory<T>, n: int)
    requires
        h.valid(),
        0 <= n < h.events.len(),
        h.actions[n] is Finish || h.actions[n] is Fail,
    ensures
        n + 1 == h.events.len(),
{
    let at_n = h.states[n];
    assert(crate::data::data_step(at_n, h.events[n], h.states[n + 1], h.actions[n]));
    lemma_order(h, n + 1);
}

} // verus!
