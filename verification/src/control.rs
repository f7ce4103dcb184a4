//! A control channel: the connection over which a client offers one service and
//! the server asks for data channels.
//!
//! The channel is a state machine. Each action is something for the caller to
//! do; the event that comes of it gives the next action.

use std::sync::Arc;
use vstd::prelude::*;

use crate::addr::SocketAddr;
use crate::config::ClientServiceConfig;
use crate::data::RunDataChannelArgs;
use crate::error::ClientError;
use crate::protocol::{
    service_digest, session_key, Ack, Auth, ControlChannelCmd, Digest, Hello, CURRENT_PROTO_VERSION,
};
use crate::transport::SocketOpts;

verus! {

/// How far a control channel has come, by what it waits for.
#[derive(Clone, Copy, Debug)]
pub enum ControlPhase {
    Idle,
    Resolving,
    Connecting { remote: SocketAddr },
    SendingHello { remote: SocketAddr },
    ReadingHello { remote: SocketAddr },
    SendingAuth { remote: SocketAddr, session_key: Digest },
    ReadingAck { remote: SocketAddr, session_key: Digest },
    /// The server has accepted the client.
    Ready { remote: SocketAddr, session_key: Digest },
    Closed,
}

/// What came of the last action. A failure holds the text of its cause.
pub enum ControlEvent {
    Resolved(Result<SocketAddr, String>),
    Connected(Result<(), String>),
    Sent(Result<(), String>),
    HelloRead(Result<Hello, String>),
    AckRead(Result<Ack, String>),
    CmdRead(Result<ControlChannelCmd, String>),
    /// The time that [`ControlChannel::heartbeat`] gives went by without a command.
    HeartbeatElapsed,
    /// The shutdown signal came, or its sender went.
    ShutdownSignalled,
}

/// What to do next.
pub enum ControlAction<T> {
    /// Find the address of this host.
    Resolve(String),
    Connect(SocketAddr),
    /// Write these bytes and flush.
    Send(Vec<u8>),
    ReadHello,
    ReadAck,
    /// Wait for a command, for the shutdown signal, and for the time that
    /// [`ControlChannel::heartbeat`] gives, counted from now.
    Listen,
    /// Start a data channel beside this one, then wait as for `Listen`.
    OpenDataChannel(RunDataChannelArgs<T>),
    /// The channel is done.
    Finish,
    /// The channel failed.
    Fail(ClientError),
}

#[derive(Debug)]
pub struct ControlChannel<T> {
    /// The SHA-256 hash of the service's name.
    pub digest: Digest,
    pub service: ClientServiceConfig,
    pub remote_addr: String,
    pub transport: Arc<T>,
    /// In seconds; 0 for no limit.
    pub heartbeat_timeout: u64,
    pub phase: ControlPhase,
}

/// Whether `event` is an answer to what the channel waits for. A channel without
/// a heartbeat limit never waits for one, and one without a token cannot answer
/// the server's nonce.
pub open spec fn control_expects<T>(channel: ControlChannel<T>, event: ControlEvent) -> bool {
    match channel.phase {
        ControlPhase::Resolving => event is Resolved,
        ControlPhase::Connecting { .. } => event is Connected,
        ControlPhase::SendingHello { .. } => event is Sent,
        ControlPhase::ReadingHello { .. } => {
            &&& event is HelloRead
            &&& event matches ControlEvent::HelloRead(
                Ok(Hello::ControlChannelHello(_, _)),
            ) ==> channel.service.token is Some
        },
        ControlPhase::SendingAuth { .. } => event is Sent,
        ControlPhase::ReadingAck { .. } => event is AckRead,
        ControlPhase::Ready { .. } => {
            ||| event is CmdRead
            ||| event is ShutdownSignalled
            ||| event is HeartbeatElapsed && channel.heartbeat_timeout != 0
        },
        ControlPhase::Idle | ControlPhase::Closed => false,
    }
}

/// The hello that offers the service.
pub open spec fn control_hello<T>(channel: ControlChannel<T>) -> Hello {
    Hello::ControlChannelHello(CURRENT_PROTO_VERSION, channel.digest)
}

/// The key that the service's token and the server's nonce give.
pub open spec fn session_key_for(service: ClientServiceConfig, nonce: Digest) -> Seq<u8> {
    crate::outside::sha256(vstd::utf8::encode_utf8(service.token->0@) + nonce@)
}

/// The channel stays what it is, in another phase.
pub open spec fn same_channel<T>(before: ControlChannel<T>, after: ControlChannel<T>) -> bool {
    &&& after.digest == before.digest
    &&& after.service == before.service
    &&& after.remote_addr == before.remote_addr
    &&& after.transport == before.transport
    &&& after.heartbeat_timeout == before.heartbeat_timeout
}

/// One step of a control channel: in the state `before`, `event` leads to the
/// state `after` and to `action`.
pub open spec fn control_step<T>(
    before: ControlChannel<T>,
    event: ControlEvent,
    after: ControlChannel<T>,
    action: ControlAction<T>,
) -> bool {
    &&& same_channel(before, after)
    &&& match (before.phase, event) {
        (ControlPhase::Resolving, ControlEvent::Resolved(Ok(remote))) => {
            &&& action == ControlAction::<T>::Connect(remote)
            &&& after.phase == (ControlPhase::Connecting { remote })
        },
        (ControlPhase::Connecting { remote }, ControlEvent::Connected(Ok(_))) => {
            &&& action matches ControlAction::Send(bytes) && bytes@
                == crate::protocol::hello_bytes(control_hello(before))
            &&& after.phase == (ControlPhase::SendingHello { remote })
        },
        (ControlPhase::Connecting { .. }, ControlEvent::Connected(Err(cause))) => {
            &&& action == ControlAction::<T>::Fail(
                ClientError::Connect { addr: before.remote_addr, cause },
            )
            &&& after.phase == ControlPhase::Closed
        },
        (ControlPhase::SendingHello { remote }, ControlEvent::Sent(Ok(_))) => {
            &&& action == ControlAction::<T>::ReadHello
            &&& after.phase == (ControlPhase::ReadingHello { remote })
        },
        (ControlPhase::ReadingHello { remote }, ControlEvent::HelloRead(Ok(hello))) => match hello {
            Hello::ControlChannelHello(_, nonce) => {
                &&& after.phase matches ControlPhase::SendingAuth { remote: r, session_key: key }
                    && r == remote && key@ == session_key_for(before.service, nonce)
                &&& action matches ControlAction::Send(bytes) && bytes@ == session_key_for(
                    before.service,
                    nonce,
                )
            },
            Hello::DataChannelHello(_, _) => {
                &&& action == ControlAction::<T>::Fail(ClientError::UnexpectedHello)
                &&& after.phase == ControlPhase::Closed
            },
        },
        (ControlPhase::SendingAuth { remote, session_key }, ControlEvent::Sent(Ok(_))) => {
            &&& action == ControlAction::<T>::ReadAck
            &&& after.phase == (ControlPhase::ReadingAck { remote, session_key })
        },
        (ControlPhase::ReadingAck { remote, session_key }, ControlEvent::AckRead(Ok(ack))) =>
        match ack {
            Ack::Accepted => {
                &&& action == ControlAction::<T>::Listen
                &&& after.phase == (ControlPhase::Ready { remote, session_key })
            },
            Ack::Refused(reason) => {
                &&& action == ControlAction::<T>::Fail(
                    ClientError::AuthFailed { service: before.service.name, reason },
                )
                &&& after.phase == ControlPhase::Closed
            },
        },
        (ControlPhase::Ready { remote, session_key }, ControlEvent::CmdRead(Ok(cmd))) => {
            &&& after.phase == before.phase
            &&& action == match cmd {
                ControlChannelCmd::CreateDataChannel => ControlAction::OpenDataChannel(
                    RunDataChannelArgs {
                        session_key,
                        remote_addr: remote,
                        connector: before.transport,
                        socket_opts: SocketOpts { nodelay: before.service.nodelay },
                        service: before.service,
                    },
                ),
                ControlChannelCmd::HeartBeat => ControlAction::Listen,
            }
        },
        (ControlPhase::Ready { .. }, ControlEvent::HeartbeatElapsed) => {
            &&& action == ControlAction::<T>::Fail(ClientError::HeartbeatTimeout)
            &&& after.phase == ControlPhase::Closed
        },
        (ControlPhase::Ready { .. }, ControlEvent::ShutdownSignalled) => {
            &&& action == ControlAction::<T>::Finish
            &&& after.phase == ControlPhase::Closed
        },
        (ControlPhase::Resolving, ControlEvent::Resolved(Err(cause)))
        | (ControlPhase::SendingHello { .. }, ControlEvent::Sent(Err(cause)))
        | (ControlPhase::ReadingHello { .. }, ControlEvent::HelloRead(Err(cause)))
        | (ControlPhase::SendingAuth { .. }, ControlEvent::Sent(Err(cause)))
        | (ControlPhase::ReadingAck { .. }, ControlEvent::AckRead(Err(cause)))
        | (ControlPhase::Ready { .. }, ControlEvent::CmdRead(Err(cause))) => {
            &&& action == ControlAction::<T>::Fail(ClientError::Io(cause))
            &&& after.phase == ControlPhase::Closed
        },
        _ => false,
    }
}

/// `channel` is a new channel that offers `service`.
pub open spec fn offers<T>(
    channel: ControlChannel<T>,
    service: ClientServiceConfig,
    remote_addr: String,
    transport: Arc<T>,
    heartbeat_timeout: u64,
) -> bool {
    &&& channel.digest@ == crate::outside::sha256(vstd::utf8::encode_utf8(service.name@))
    &&& channel.service == service
    &&& channel.remote_addr == remote_addr
    &&& channel.transport == transport
    &&& channel.heartbeat_timeout == heartbeat_timeout
    &&& channel.phase == ControlPhase::Idle
}

impl<T> ControlChannel<T> {
    pub fn new(
        service: ClientServiceConfig,
        remote_addr: String,
        transport: Arc<T>,
        heartbeat_timeout: u64,
    ) -> (r: ControlChannel<T>)
        ensures
            offers(r, service, remote_addr, transport, heartbeat_timeout),
    {
        let digest = service_digest(service.name.as_str());
        ControlChannel {
            digest,
            service,
            remote_addr,
            transport,
            heartbeat_timeout,
            phase: ControlPhase::Idle,
        }
    }

    /// How many seconds to wait for a command, where there is a limit.
    pub fn heartbeat(&self) -> (r: Option<u64>)
        ensures
            r == if self.heartbeat_timeout == 0 {
                None
            } else {
                Some(self.heartbeat_timeout)
            },
    {
        if self.heartbeat_timeout != 0 {
            Some(self.heartbeat_timeout)
        } else {
            None
        }
    }

    /// Starts a run from the beginning, whatever became of the one before.
    pub fn begin(&mut self) -> (action: ControlAction<T>)
        ensures
            same_channel(*old(self), *final(self)),
            final(self).phase == ControlPhase::Resolving,
            action == ControlAction::<T>::Resolve(old(self).remote_addr),
    {
        self.phase = ControlPhase::Resolving;
        ControlAction::Resolve(self.remote_addr.clone())
    }

    /// Sends the session key, once it is known, as the proof of the token.
    pub fn authenticate(&mut self, remote: SocketAddr, session_key: Digest) -> (action:
        ControlAction<T>)
        ensures
            same_channel(*old(self), *final(self)),
            final(self).phase == (ControlPhase::SendingAuth { remote, session_key }),
            action matches ControlAction::Send(bytes) && bytes@ == session_key@,
    {
        self.phase = ControlPhase::SendingAuth { remote, session_key };
        ControlAction::Send(Auth(session_key).encode())
    }

    /// Ends the run with an error.
    fn fail(&mut self, error: ClientError) -> (action: ControlAction<T>)
        ensures
            same_channel(*old(self), *final(self)),
            final(self).phase == ControlPhase::Closed,
            action == ControlAction::<T>::Fail(error),
    {
        self.phase = ControlPhase::Closed;
        ControlAction::Fail(error)
    }

    /// Takes the event that the last action led to, and gives the next action.
    pub fn step(&mut self, event: ControlEvent) -> (action: ControlAction<T>)
        requires
            control_expects(*old(self), event),
        ensures
            control_step(*old(self), event, *final(self), action),
    {
        match (self.phase, event) {
            (ControlPhase::Resolving, ControlEvent::Resolved(Ok(remote))) => {
                self.phase = ControlPhase::Connecting { remote };
                ControlAction::Connect(remote)
            },
            (ControlPhase::Connecting { remote }, ControlEvent::Connected(Ok(_))) => {
                let hello = Hello::ControlChannelHello(CURRENT_PROTO_VERSION, self.digest);
                self.phase = ControlPhase::SendingHello { remote };
                ControlAction::Send(hello.encode())
            },
            (ControlPhase::Connecting { .. }, ControlEvent::Connected(Err(cause))) => {
                let addr = self.remote_addr.clone();
                self.fail(ClientError::Connect { addr, cause })
            },
            (ControlPhase::SendingHello { remote }, ControlEvent::Sent(Ok(_))) => {
                self.phase = ControlPhase::ReadingHello { remote };
                ControlAction::ReadHello
            },
            (
                ControlPhase::ReadingHello { remote },
                ControlEvent::HelloRead(Ok(hello)),
            ) => match hello {
                Hello::ControlChannelHello(_, nonce) => {
                    let key = match &self.service.token {
                        Some(token) => session_key(token.as_str(), &nonce),
                        None => vstd::pervasive::unreached(),
                    };
                    self.authenticate(remote, key)
                },
                Hello::DataChannelHello(_, _) => self.fail(ClientError::UnexpectedHello),
            },
            (ControlPhase::SendingAuth { remote, session_key }, ControlEvent::Sent(Ok(_))) => {
                self.phase = ControlPhase::ReadingAck { remote, session_key };
                ControlAction::ReadAck
            },
            (
                ControlPhase::ReadingAck { remote, session_key },
                ControlEvent::AckRead(Ok(ack)),
            ) => match ack {
                Ack::Accepted => {
                    self.phase = ControlPhase::Ready { remote, session_key };
                    ControlAction::Listen
                },
                Ack::Refused(reason) => {
                    let service = self.service.name.clone();
                    self.fail(ClientError::AuthFailed { service, reason })
                },
            },
            (
                ControlPhase::Ready { remote, session_key },
                ControlEvent::CmdRead(Ok(cmd)),
            ) => match cmd {
                ControlChannelCmd::CreateDataChannel => ControlAction::OpenDataChannel(
                    RunDataChannelArgs {
                        session_key,
                        remote_addr: remote,
                        connector: crate::outside::share(&self.transport),
                        socket_opts: SocketOpts::from_client_cfg(&self.service),
                        service: self.service.clone(),
                    },
                ),
                ControlChannelCmd::HeartBeat => ControlAction::Listen,
            },
            (ControlPhase::Ready { .. }, ControlEvent::HeartbeatElapsed) => {
                self.fail(ClientError::HeartbeatTimeout)
            },
            (ControlPhase::Ready { .. }, ControlEvent::ShutdownSignalled) => {
                self.phase = ControlPhase::Closed;
                ControlAction::Finish
            },
            (ControlPhase::Resolving, ControlEvent::Resolved(Err(cause)))
            | (ControlPhase::SendingHello { .. }, ControlEvent::Sent(Err(cause)))
            | (ControlPhase::ReadingHello { .. }, ControlEvent::HelloRead(Err(cause)))
            | (ControlPhase::SendingAuth { .. }, ControlEvent::Sent(Err(cause)))
            | (ControlPhase::ReadingAck { .. }, ControlEvent::AckRead(Err(cause)))
            | (ControlPhase::Ready { .. }, ControlEvent::CmdRead(Err(cause))) => {
                self.fail(ClientError::Io(cause))
            },
            _ => vstd::pervasive::unreached(),
        }
    }
}

/// The history of one run: the state after [`ControlChannel::begin`] and after
/// each step, with the event and the action of each step.
pub struct ControlHistory<T> {
    pub states: Seq<ControlChannel<T>>,
    pub events: Seq<ControlEvent>,
    pub actions: Seq<ControlAction<T>>,
}

impl<T> ControlHistory<T> {
    pub open spec fn valid(self) -> bool {
        &&& self.states.len() == self.events.len() + 1
        &&& self.actions.len() == self.events.len()
        &&& self.states[0].phase == ControlPhase::Resolving
        &&& forall|i: int|
            0 <= i < self.events.len() ==> control_expects(
                #[trigger] self.states[i],
                self.events[i],
            ) && control_step(
                self.states[i],
                self.events[i],
                self.states[i + 1],
                self.actions[i],
            )
    }

    /// The server found at `remote` answered the client's hello with `nonce`,
    /// and accepted the client. These are the first six events.
    pub open spec fn server_accepts(self, remote: SocketAddr, nonce: Digest) -> bool {
        &&& self.events.len() >= 6
        &&& self.events[0] == ControlEvent::Resolved(Ok(remote))
        &&& self.events[1] matches ControlEvent::Connected(Ok(_))
        &&& self.events[2] matches ControlEvent::Sent(Ok(_))
        &&& self.events[3] matches ControlEvent::HelloRead(Ok(Hello::ControlChannelHello(_, d)))
            && d == nonce
        &&& self.events[4] matches ControlEvent::Sent(Ok(_))
        &&& self.events[5] == ControlEvent::AckRead(Ok(Ack::Accepted))
    }

    /// The client connected to `remote`, offered its service, and proved its
    /// token with the key that `nonce` gives. These are the first six actions.
    pub open spec fn client_proves(self, remote: SocketAddr, nonce: Digest) -> bool {
        &&& self.actions.len() >= 6
        &&& self.actions[0] == ControlAction::<T>::Connect(remote)
        &&& self.actions[1] matches ControlAction::Send(bytes) && bytes@
            == crate::protocol::hello_bytes(control_hello(self.states[0]))
        &&& self.actions[2] == ControlAction::<T>::ReadHello
        &&& self.actions[3] matches ControlAction::Send(bytes) && bytes@ == session_key_for(
            self.states[0].service,
            nonce,
        )
        &&& self.actions[4] == ControlAction::<T>::ReadAck
        &&& self.actions[5] == ControlAction::<T>::Listen
    }
}

proof fn lemma_same_channel<T>(h: ControlHistory<T>, n: int)
    requires
        h.valid(),
        0 <= n <= h.events.len(),
    ensures
        same_channel(h.states[0], h.states[n]),
    decreases n,
{
    if n > 0 {
        lemma_same_channel(h, n - 1);
        let before = h.states[n - 1];
        assert(control_step(before, h.events[n - 1], h.states[n], h.actions[n - 1]));
    }
}

/// Where each phase stands in a run: the handshake has one order.
proof fn lemma_phases<T>(h: ControlHistory<T>, n: int)
    requires
        h.valid(),
        0 <= n <= h.events.len(),
    ensures
        match h.states[n].phase {
            ControlPhase::Idle => false,
            ControlPhase::Resolving => n == 0,
            ControlPhase::Connecting { .. } => n == 1,
            ControlPhase::SendingHello { .. } => n == 2,
            ControlPhase::ReadingHello { .. } => n == 3,
            ControlPhase::SendingAuth { .. } => n == 4,
            ControlPhase::ReadingAck { .. } => n == 5,
            ControlPhase::Ready { .. } => n >= 6 && h.states[6].phase == h.states[n].phase,
            ControlPhase::Closed => n == h.events.len(),
        },
    decreases n,
{
    if n > 0 {
        lemma_phases(h, n - 1);
        let before = h.states[n - 1];
        assert(control_expects(before, h.events[n - 1]));
        assert(control_step(before, h.events[n - 1], h.states[n], h.actions[n - 1]));
        if h.states[n].phase is Closed && n < h.events.len() {
            let closed = h.states[n];
            assert(control_expects(closed, h.events[n]));
        }
    }
}

/// A data channel is opened only after the server has accepted the client, and
/// the server is asked to accept only by the whole handshake. The data channel
/// goes to the server of the handshake, for the service that was offered and with
/// the options that the service asks for, over the transport of the control
/// channel, and has the key that the token and the server's nonce give.
pub proof fn data_channels_follow_the_handshake<T>(h: ControlHistory<T>, n: int)
    requires
        h.valid(),
        0 <= n < h.events.len(),
        h.actions[n] is OpenDataChannel,
    ensures
        n >= 6,
        h.actions[n] matches ControlAction::OpenDataChannel(args) && {
            &&& args.service == h.states[0].service
            &&& args.connector == h.states[0].transport
            &&& args.socket_opts == (SocketOpts { nodelay: h.states[0].service.nodelay })
            &&& exists|nonce: Digest|
                {
                    &&& #[trigger] h.server_accepts(args.remote_addr, nonce)
                    &&& h.client_proves(args.remote_addr, nonce)
                    &&& args.session_key@ == session_key_for(h.states[0].service, nonce)
                }
        },
{
    lemma_phases(h, n);
    lemma_same_channel(h, n);
    let at_n = h.states[n];
    assert(control_step(at_n, h.events[n], h.states[n + 1], h.actions[n]));
    lemma_phases(h, 6);
    lemma_phases(h, 5);
    lemma_phases(h, 4);
    lemma_phases(h, 3);
    lemma_phases(h, 2);
    lemma_phases(h, 1);
    lemma_same_channel(h, 1);
    lemma_same_channel(h, 3);
    let (s0, s1, s2, s3, s4, s5) = (
        h.states[0],
        h.states[1],
        h.states[2],
        h.states[3],
        h.states[4],
        h.states[5],
    );
    assert(control_step(s5, h.events[5], h.states[6], h.actions[5]));
    assert(control_step(s4, h.events[4], s5, h.actions[4]));
    assert(control_step(s3, h.events[3], s4, h.actions[3]));
    assert(control_step(s2, h.events[2], s3, h.actions[2]));
    assert(control_step(s1, h.events[1], s2, h.actions[1]));
    assert(control_step(s0, h.events[0], s1, h.actions[0]));
    let remote = h.actions[n]->OpenDataChannel_0.remote_addr;
    let nonce = h.events[3]->HelloRead_0->Ok_0->ControlChannelHello_1;
    assert(h.server_accepts(remote, nonce));
    assert(h.client_proves(remote, nonce));
}

/// Every data channel that a run opens joins with the key of that run: its hello
/// ends with the hash of the service's token and the nonce that the server sent.
pub proof fn data_hello_carries_the_session_key<T>(
    h: ControlHistory<T>,
    n: int,
    data: crate::data::DataHistory<T>,
    m: int,
)
    requires
        h.valid(),
        0 <= n < h.events.len(),
        data.valid(),
        h.actions[n] == ControlAction::OpenDataChannel(data.states[0].args),
        0 <= m < data.events.len(),
        data.actions[m] is Send,
    ensures
        data.actions[m] matches crate::data::DataAction::Send(bytes) && exists|nonce: Digest|
            #[trigger] h.server_accepts(data.states[0].args.remote_addr, nonce) && bytes@
                == seq![1u8, 0, 0, 0, CURRENT_PROTO_VERSION] + session_key_for(
                h.states[0].service,
                nonce,
            ),
{
    data_channels_follow_the_handshake(h, n);
    crate::data::data_hello_is_the_only_message(data, m);
}

/// A server that plays its part gets the whole handshake, and from then on each
/// of its requests opens a data channel, until the run ends.
pub proof fn handshake_opens_data_channels<T>(
    h: ControlHistory<T>,
    remote: SocketAddr,
    nonce: Digest,
    n: int,
)
    requires
        h.valid(),
        h.server_accepts(remote, nonce),
        6 <= n < h.events.len(),
        h.events[n] == ControlEvent::CmdRead(Ok(ControlChannelCmd::CreateDataChannel)),
    ensures
        h.client_proves(remote, nonce),
        h.actions[n] matches ControlAction::OpenDataChannel(args) && {
            &&& args.remote_addr == remote
            &&& args.session_key@ == session_key_for(h.states[0].service, nonce)
            &&& args.service == h.states[0].service
            &&& args.connector == h.states[0].transport
            &&& args.socket_opts == (SocketOpts { nodelay: h.states[0].service.nodelay })
        },
{
    lemma_phases(h, n);
    let at_n = h.states[n];
    assert(control_expects(at_n, h.events[n]));
    assert(control_step(at_n, h.events[n], h.states[n + 1], h.actions[n]));
    data_channels_follow_the_handshake(h, n);
}

/// A channel whose heartbeat limit is 0 is never given up for silence, and no
/// channel is before the server has accepted it.
pub proof fn silence_ends_only_limited_channels<T>(h: ControlHistory<T>, n: int)
    requires
        h.valid(),
        0 <= n < h.events.len(),
        h.actions[n] == ControlAction::<T>::Fail(ClientError::HeartbeatTimeout),
    ensures
        h.states[0].heartbeat_timeout != 0,
        h.states[n].phase is Ready,
        n >= 6,
{
    lemma_phases(h, n);
    lemma_same_channel(h, n);
    let at_n = h.states[n];
    assert(control_expects(at_n, h.events[n]));
    assert(control_step(at_n, h.events[n], h.states[n + 1], h.actions[n]));
}

/// A run is over exactly when a step finishes it or fails it, and it finishes
/// only on the shutdown signal.
pub proof fn control_closes_when_done<T>(
    before: ControlChannel<T>,
    event: ControlEvent,
    after: ControlChannel<T>,
    action: ControlAction<T>,
)
    requires
        control_step(before, event, after, action),
    ensures
        after.phase == ControlPhase::Closed <==> (action is Finish || action is Fail),
        action is Finish ==> event == ControlEvent::ShutdownSignalled,
{
}

} // verus!
