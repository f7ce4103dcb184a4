//! Laws of control channels.

use std::sync::Arc;
use vstd::prelude::*;

use crate::addr::SocketAddr;
use crate::config::ClientServiceConfig;
use crate::control::{ControlAction, ControlChannel, ControlEvent, ControlHistory, ControlPhase};
use crate::data::{DataAction, DataHistory};
use crate::error::ClientError;
use crate::outside;
use crate::protocol::{Ack, ControlChannelCmd, Digest, Hello};

verus! {

/// `channel` is what it was, but for its phase.
pub open spec fn unchanged<T>(before: ControlChannel<T>, after: ControlChannel<T>) -> bool {
    &&& after.digest == before.digest
    &&& after.service == before.service
    &&& after.remote_addr == before.remote_addr
    &&& after.transport == before.transport
    &&& after.heartbeat_timeout == before.heartbeat_timeout
}

/// The bytes with which a client offers a service: a control channel's kind, version
/// 1, and the digest that names the service.
pub open spec fn offers_with(bytes: Seq<u8>, digest: Seq<u8>) -> bool {
    &&& bytes.len() == 37
    &&& bytes[0] == 0 && bytes[1] == 0 && bytes[2] == 0 && bytes[3] == 0
    &&& bytes[4] == 1
    &&& bytes.skip(5) == digest
}

/// A new channel offers its service under the SHA-256 hash of the service's name,
/// and keeps all that it was given.
pub proof fn new_channel_offers_its_service<T>(
    service: ClientServiceConfig,
    remote_addr: String,
    transport: Arc<T>,
    heartbeat_timeout: u64,
    r: ControlChannel<T>,
)
    requires
        call_ensures(
            ControlChannel::<T>::new,
            (service, remote_addr, transport, heartbeat_timeout),
            r,
        ),
    ensures
        r.digest@ == outside::sha256(vstd::utf8::encode_utf8(service.name@)),
        r.service == service,
        r.remote_addr == remote_addr,
        r.transport == transport,
        r.heartbeat_timeout == heartbeat_timeout,
        r.phase is Idle,
{
}

/// There is a limit on the server's silence unless it is 0, and it is the one that
/// was given.
pub proof fn heartbeat_is_the_limit<T>(channel: ControlChannel<T>, r: Option<u64>)
    requires
        call_ensures(ControlChannel::<T>::heartbeat, (&channel,), r),
    ensures
        r is None <==> channel.heartbeat_timeout == 0,
        r matches Some(seconds) ==> seconds == channel.heartbeat_timeout,
{
}

/// Every run begins with the server's address, whatever became of the run before.
pub proof fn run_begins_with_the_address<T>(
    channel: &mut ControlChannel<T>,
    action: ControlAction<T>,
)
    requires
        call_ensures(ControlChannel::<T>::begin, (channel,), action),
    ensures
        action matches ControlAction::Resolve(addr) && addr == old(channel).remote_addr,
        unchanged(*old(channel), *final(channel)),
        final(channel).phase is Resolving,
{
}

/// A channel proves its token by sending the key that it is given.
pub proof fn key_is_sent_and_kept<T>(
    channel: &mut ControlChannel<T>,
    remote: SocketAddr,
    key: Digest,
    action: ControlAction<T>,
)
    requires
        call_ensures(ControlChannel::<T>::authenticate, (channel, remote, key), action),
    ensures
        action matches ControlAction::Send(bytes) && bytes@ == key@,
        unchanged(*old(channel), *final(channel)),
        final(channel).phase == (ControlPhase::SendingAuth { remote, session_key: key }),
{
}

/// Each action has its one reason. A resolved address is connected to, and a
/// connection is followed by the hello with the service's digest. The server's hello
/// is followed by the hash of the token with the server's nonce, as it was sent,
/// behind it. Once the server accepts, the channel listens, and each request opens
/// one data channel. It finishes exactly on the shutdown signal.
pub proof fn control_actions_have_their_reasons<T>(
    channel: &mut ControlChannel<T>,
    event: ControlEvent,
    action: ControlAction<T>,
)
    requires
        call_ensures(ControlChannel::<T>::step, (channel, event), action),
    ensures
        unchanged(*old(channel), *final(channel)),
        action is Connect <==> (event matches ControlEvent::Resolved(Ok(_))),
        event matches ControlEvent::Resolved(Ok(remote)) ==> action == ControlAction::<T>::Connect(
            remote,
        ),
        action is Send <==> ((event matches ControlEvent::Connected(Ok(_))) || (
        event matches ControlEvent::HelloRead(Ok(Hello::ControlChannelHello(_, _))))),
        (event matches ControlEvent::Connected(Ok(_))) ==> (action matches ControlAction::Send(bytes)
            && offers_with(bytes@, old(channel).digest@)),
        event matches ControlEvent::HelloRead(Ok(Hello::ControlChannelHello(version, nonce)))
            ==> (action matches ControlAction::Send(bytes) && bytes@ == outside::sha256(
            vstd::utf8::encode_utf8(old(channel).service.token->0@) + nonce@,
        )),
        action is ReadHello <==> ((event matches ControlEvent::Sent(Ok(_)))
            && old(channel).phase is SendingHello),
        action is ReadAck <==> ((event matches ControlEvent::Sent(Ok(_)))
            && old(channel).phase is SendingAuth),
        action is Listen <==> (event == ControlEvent::AckRead(Ok(Ack::Accepted)) || event
            == ControlEvent::CmdRead(Ok(ControlChannelCmd::HeartBeat))),
        action is OpenDataChannel <==> event == ControlEvent::CmdRead(
            Ok(ControlChannelCmd::CreateDataChannel),
        ),
        action is Finish <==> event is ShutdownSignalled,
        action !is Resolve,
{
    if event matches ControlEvent::Connected(Ok(_)) {
        let bytes = action->Send_0;
        assert(bytes@.skip(5) =~= old(channel).digest@);
    }
}

/// What a data channel is given is what the run found out: the address that was
/// resolved and the key that was proved, with the service, the options that it asks
/// for, and the transport. The channel stays ready for more.
pub proof fn data_channel_gets_the_session<T>(
    channel: &mut ControlChannel<T>,
    event: ControlEvent,
    action: ControlAction<T>,
)
    requires
        call_ensures(ControlChannel::<T>::step, (channel, event), action),
    ensures
        action matches ControlAction::OpenDataChannel(args) ==> {
            &&& old(channel).phase == (ControlPhase::Ready {
                remote: args.remote_addr,
                session_key: args.session_key,
            })
            &&& args.service == old(channel).service
            &&& args.connector == old(channel).transport
            &&& args.socket_opts.nodelay == old(channel).service.nodelay
        },
        (event matches ControlEvent::CmdRead(Ok(_))) ==> old(channel).phase is Ready
            && final(channel).phase == old(channel).phase,
{
}

/// A run remembers the address that it resolved and the key that it proved until it
/// ends.
pub proof fn run_remembers_address_and_key<T>(
    channel: &mut ControlChannel<T>,
    event: ControlEvent,
    action: ControlAction<T>,
)
    requires
        call_ensures(ControlChannel::<T>::step, (channel, event), action),
    ensures
        action is Fail || action is Finish <==> final(channel).phase is Closed,
        match final(channel).phase {
            ControlPhase::Idle | ControlPhase::Resolving => false,
            ControlPhase::Connecting { remote } => event == ControlEvent::Resolved(Ok(remote)),
            ControlPhase::SendingHello { remote } => old(channel).phase
                == (ControlPhase::Connecting { remote }),
            ControlPhase::ReadingHello { remote } => old(channel).phase
                == (ControlPhase::SendingHello { remote }),
            ControlPhase::SendingAuth { remote, session_key } => {
                &&& old(channel).phase == (ControlPhase::ReadingHello { remote })
                &&& event matches ControlEvent::HelloRead(
                    Ok(Hello::ControlChannelHello(version, nonce)),
                ) && session_key@ == outside::sha256(
                    vstd::utf8::encode_utf8(old(channel).service.token->0@) + nonce@,
                )
            },
            ControlPhase::ReadingAck { remote, session_key } => old(channel).phase
                == (ControlPhase::SendingAuth { remote, session_key }),
            ControlPhase::Ready { remote, session_key } => old(channel).phase
                == (ControlPhase::ReadingAck { remote, session_key }) || old(channel).phase
                == (ControlPhase::Ready { remote, session_key }),
            ControlPhase::Closed => true,
        },
{
}

/// A failure is told with its own cause, and nothing else fails a run.
pub proof fn control_failures_keep_their_cause<T>(
    channel: &mut ControlChannel<T>,
    event: ControlEvent,
    action: ControlAction<T>,
)
    requires
        call_ensures(ControlChannel::<T>::step, (channel, event), action),
    ensures
        match event {
            ControlEvent::Connected(Err(cause)) => action == ControlAction::<T>::Fail(
                ClientError::Connect { addr: old(channel).remote_addr, cause },
            ),
            ControlEvent::Resolved(Err(cause))
            | ControlEvent::Sent(Err(cause))
            | ControlEvent::HelloRead(Err(cause))
            | ControlEvent::AckRead(Err(cause))
            | ControlEvent::CmdRead(Err(cause)) => action == ControlAction::<T>::Fail(
                ClientError::Io(cause),
            ),
            ControlEvent::HelloRead(Ok(Hello::DataChannelHello(_, _))) => action
                == ControlAction::<T>::Fail(ClientError::UnexpectedHello),
            ControlEvent::AckRead(Ok(Ack::Refused(reason))) => action == ControlAction::<T>::Fail(
                ClientError::AuthFailed { service: old(channel).service.name, reason },
            ),
            ControlEvent::HeartbeatElapsed => action == ControlAction::<T>::Fail(
                ClientError::HeartbeatTimeout,
            ),
            _ => action !is Fail,
        },
{
}

/// After each action the channel waits for what comes of it, and takes any outcome.
/// Only a channel with a limit waits for silence, and only one with a token can
/// answer a nonce.
pub proof fn control_channel_takes_every_answer<T>(
    channel: &mut ControlChannel<T>,
    event: ControlEvent,
    action: ControlAction<T>,
    next: &mut ControlChannel<T>,
    answer: ControlEvent,
)
    requires
        call_ensures(ControlChannel::<T>::step, (channel, event), action),
        *old(next) == *final(channel),
        match action {
            ControlAction::Connect(_) => answer is Connected,
            ControlAction::Send(_) => answer is Sent,
            ControlAction::ReadHello => answer is HelloRead && old(next).service.token is Some,
            ControlAction::ReadAck => answer is AckRead,
            ControlAction::Listen | ControlAction::OpenDataChannel(_) => answer is CmdRead
                || answer is ShutdownSignalled || answer is HeartbeatElapsed
                && old(next).heartbeat_timeout > 0,
            _ => false,
        },
    ensures
        call_requires(ControlChannel::<T>::step, (next, answer)),
{
}

/// A run takes any outcome of finding the server's address.
pub proof fn control_channel_takes_any_address<T>(
    channel: &mut ControlChannel<T>,
    action: ControlAction<T>,
    next: &mut ControlChannel<T>,
    resolved: Result<SocketAddr, String>,
)
    requires
        call_ensures(ControlChannel::<T>::begin, (channel,), action),
        *old(next) == *final(channel),
    ensures
        call_requires(ControlChannel::<T>::step, (next, ControlEvent::Resolved(resolved))),
{
}

proof fn lemma_unchanged<T>(h: ControlHistory<T>, n: int)
    requires
        h.valid(),
        0 <= n <= h.events.len(),
    ensures
        unchanged(h.states[0], h.states[n]),
    decreases n,
{
    if n > 0 {
        lemma_unchanged(h, n - 1);
        let before = h.states[n - 1];
        assert(crate::control::control_step(
            before,
            h.events[n - 1],
            h.states[n],
            h.actions[n - 1],
        ));
    }
}

/// The run has answered the server's `nonce` in its fourth step with the hash of
/// the token and the nonce, after it resolved `remote` in its first.
pub open spec fn answered<T>(h: ControlHistory<T>, remote: SocketAddr, key: Seq<u8>) -> bool {
    &&& h.events.len() >= 4
    &&& h.events[0] == ControlEvent::Resolved(Ok(remote))
    &&& h.events[3] matches ControlEvent::HelloRead(Ok(Hello::ControlChannelHello(version, nonce)))
        && key == outside::sha256(
        vstd::utf8::encode_utf8(h.states[0].service.token->0@) + nonce@,
    )
}

proof fn lemma_order<T>(h: ControlHistory<T>, n: int)
    requires
        h.valid(),
        0 <= n <= h.events.len(),
    ensures
        match h.states[n].phase {
            ControlPhase::Idle => false,
            ControlPhase::Resolving => n == 0,
            ControlPhase::Connecting { remote } => n == 1 && h.events[0] == ControlEvent::Resolved(
                Ok(remote),
            ),
            ControlPhase::SendingHello { remote } => n == 2 && h.events[0]
                == ControlEvent::Resolved(Ok(remote)),
            ControlPhase::ReadingHello { remote } => n == 3 && h.events[0]
                == ControlEvent::Resolved(Ok(remote)),
            ControlPhase::SendingAuth { remote, session_key } => n == 4 && answered(
                h,
                remote,
                session_key@,
            ),
            ControlPhase::ReadingAck { remote, session_key } => n == 5 && answered(
                h,
                remote,
                session_key@,
            ),
            ControlPhase::Ready { remote, session_key } => n >= 6 && answered(
                h,
                remote,
                session_key@,
            ),
            ControlPhase::Closed => n == h.events.len(),
        },
    decreases n,
{
    if n > 0 {
        lemma_order(h, n - 1);
        lemma_unchanged(h, n - 1);
        let before = h.states[n - 1];
        assert(crate::control::control_step(
            before,
            h.events[n - 1],
            h.states[n],
            h.actions[n - 1],
        ));
    }
    if n < h.events.len() {
        let at_n = h.states[n];
        assert(crate::control::control_step(at_n, h.events[n], h.states[n + 1], h.actions[n]));
    }
}

/// Whatever nonce the server's hello carries, the proof of the token that is sent,
/// and the key of every data channel of the run, is the SHA-256 hash of the token in
/// UTF-8 with that nonce, as it was sent, behind it.
pub proof fn nonce_is_answered_with_its_hash<T>(
    h: ControlHistory<T>,
    i: int,
    version: u8,
    nonce: Digest,
    n: int,
)
    requires
        h.valid(),
        0 <= i < h.events.len(),
        h.events[i] == ControlEvent::HelloRead(Ok(Hello::ControlChannelHello(version, nonce))),
        0 <= n < h.events.len(),
    ensures
        h.states[0].service.token matches Some(token) && {
            let key = outside::sha256(vstd::utf8::encode_utf8(token@) + nonce@);
            &&& h.actions[i] matches ControlAction::Send(bytes) && bytes@ == key
            &&& h.actions[n] matches ControlAction::OpenDataChannel(args) ==> args.session_key@
                == key
        },
{
    lemma_order(h, i);
    lemma_order(h, n);
    lemma_unchanged(h, i);
    lemma_unchanged(h, n);
    let (at_i, at_n) = (h.states[i], h.states[n]);
    assert(crate::control::control_expects(at_i, h.events[i]));
    assert(crate::control::control_step(at_i, h.events[i], h.states[i + 1], h.actions[i]));
    assert(crate::control::control_step(at_n, h.events[n], h.states[n + 1], h.actions[n]));
}

/// Every request for a data channel, at any time of a run, opens one: to the address
/// that the run resolved, with the key that it proved, for its own service.
pub proof fn every_request_opens_a_data_channel<T>(h: ControlHistory<T>, n: int)
    requires
        h.valid(),
        0 <= n < h.events.len(),
        h.events[n] == ControlEvent::CmdRead(Ok(ControlChannelCmd::CreateDataChannel)),
    ensures
        n >= 6,
        h.actions[n] matches ControlAction::OpenDataChannel(args) && {
            &&& answered(h, args.remote_addr, args.session_key@)
            &&& args.service == h.states[0].service
            &&& args.connector == h.states[0].transport
            &&& args.socket_opts.nodelay == h.states[0].service.nodelay
        },
{
    lemma_order(h, n);
    lemma_unchanged(h, n);
    let at_n = h.states[n];
    assert(crate::control::control_step(at_n, h.events[n], h.states[n + 1], h.actions[n]));
}

/// The hello of every data channel that a run opens ends with the SHA-256 hash of
/// the token and the nonce of that run.
pub proof fn data_channel_joins_with_the_hash<T>(
    h: ControlHistory<T>,
    version: u8,
    nonce: Digest,
    n: int,
    data: DataHistory<T>,
)
    requires
        h.valid(),
        h.events.len() > 3,
        h.events[3] == ControlEvent::HelloRead(Ok(Hello::ControlChannelHello(version, nonce))),
        0 <= n < h.events.len(),
        data.valid(),
        data.events.len() >= 3,
        h.actions[n] == ControlAction::OpenDataChannel(data.states[0].args),
    ensures
        data.actions[1] matches DataAction::Send(bytes) && crate::laws::data::joins_with(
            bytes@,
            outside::sha256(
                vstd::utf8::encode_utf8(h.states[0].service.token->0@) + nonce@,
            ),
        ),
{
    nonce_is_answered_with_its_hash(h, 3, version, nonce, n);
    crate::laws::data::data_channel_joins_first(data);
}

/// A run that finished or failed does nothing more.
pub proof fn control_run_ends_once<T>(h: ControlHistory<T>, n: int)
    requires
        h.valid(),
        0 <= n < h.events.len(),
        h.actions[n] is Finish || h.actions[n] is Fail,
    ensures
        n + 1 == h.events.len(),
{
    let at_n = h.states[n];
    assert(crate::control::control_step(at_n, h.events[n], h.states[n + 1], h.actions[n]));
    lemma_order(h, n + 1);
}

} // verus!
