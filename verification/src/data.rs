//! A data channel: one connection to the server that carries the traffic of one
//! visitor to a local service.
//!
//! The channel is a state machine. Each action is something for the caller to
//! do; the event that comes of it gives the next action.

use std::sync::Arc;
use vstd::prelude::*;

use crate::addr::SocketAddr;
use crate::config::{ClientServiceConfig, ServiceType};
use crate::error::ClientError;
use crate::protocol::{DataChannelCmd, Digest, Hello, CURRENT_PROTO_VERSION};
use crate::quic::SERVER_NAME;
use crate::transport::SocketOpts;

verus! {

/// What a control channel gives each of its data channels.
#[derive(Debug)]
pub struct RunDataChannelArgs<T> {
    pub session_key: Digest,
    pub remote_addr: SocketAddr,
    /// The transport of the control channel.
    pub connector: Arc<T>,
    pub socket_opts: SocketOpts,
    pub service: ClientServiceConfig,
}

/// How far a data channel has come, by what it waits for.
#[derive(Clone, Copy, Debug, PartialEq, Eq, Structural)]
pub enum DataPhase {
    Idle,
    Dialing,
    OpeningStream,
    SendingHello,
    ReadingCmd,
    ConnectingLocal,
    Copying,
    Closed,
}

/// What came of the last action. A failure holds the text of its cause.
pub enum DataEvent {
    Dialed(Result<(), String>),
    StreamOpened,
    Sent(Result<(), String>),
    CmdRead(Result<DataChannelCmd, String>),
    LocalConnected(Result<(), String>),
    /// The copying ended, with or without an error.
    Copied,
}

/// What to do next.
pub enum DataAction {
    /// Connect from `bind_addr` to the server, again and again as
    /// [`data_channel_backoff`](crate::retry::data_channel_backoff) allows.
    Dial { bind_addr: SocketAddr, remote_addr: SocketAddr, server_name: String },
    /// Open a stream in both directions.
    OpenStream,
    /// Write these bytes and flush.
    Send(Vec<u8>),
    ReadCmd,
    /// Connect to the local service over TCP.
    ConnectLocal(String),
    /// Copy in both directions until one side ends.
    Copy,
    /// The channel is done.
    Finish,
    /// The channel failed.
    Fail(ClientError),
}

#[derive(Debug)]
pub struct DataChannel<T> {
    pub args: RunDataChannelArgs<T>,
    pub phase: DataPhase,
}

/// Whether `event` is an answer to what the channel waits for.
pub open spec fn data_expects<T>(channel: DataChannel<T>, event: DataEvent) -> bool {
    match channel.phase {
        DataPhase::Dialing => event is Dialed,
        DataPhase::OpeningStream => event is StreamOpened,
        DataPhase::SendingHello => event is Sent,
        DataPhase::ReadingCmd => event is CmdRead,
        DataPhase::ConnectingLocal => event is LocalConnected,
        DataPhase::Copying => event is Copied,
        DataPhase::Idle | DataPhase::Closed => false,
    }
}

/// The hello with which a data channel joins the session of `session_key`.
pub open spec fn data_hello(session_key: Digest) -> Hello {
    Hello::DataChannelHello(CURRENT_PROTO_VERSION, session_key)
}

/// One step of a data channel: in the state `before`, `event` leads to the state
/// `after` and to `action`.
pub open spec fn data_step<T>(
    before: DataChannel<T>,
    event: DataEvent,
    after: DataChannel<T>,
    action: DataAction,
) -> bool {
    &&& after.args == before.args
    &&& match (before.phase, event) {
        (DataPhase::Dialing, DataEvent::Dialed(Ok(_))) => {
            &&& action == DataAction::OpenStream
            &&& after.phase == DataPhase::OpeningStream
        },
        (DataPhase::OpeningStream, DataEvent::StreamOpened) => {
            &&& action matches DataAction::Send(bytes) && bytes@ == crate::protocol::hello_bytes(
                data_hello(before.args.session_key),
            )
            &&& after.phase == DataPhase::SendingHello
        },
        (DataPhase::SendingHello, DataEvent::Sent(Ok(_))) => {
            &&& action == DataAction::ReadCmd
            &&& after.phase == DataPhase::ReadingCmd
        },
        (DataPhase::ReadingCmd, DataEvent::CmdRead(Ok(cmd))) => if cmd
            == DataChannelCmd::StartForwardTcp {
            if before.args.service.service_type == ServiceType::Tcp {
                &&& action == DataAction::ConnectLocal(before.args.service.local_addr)
                &&& after.phase == DataPhase::ConnectingLocal
            } else {
                &&& action == DataAction::Fail(ClientError::ExpectTcp)
                &&& after.phase == DataPhase::Closed
            }
        } else {
            &&& action == DataAction::Finish
            &&& after.phase == DataPhase::Closed
        },
        (DataPhase::ConnectingLocal, DataEvent::LocalConnected(Ok(_))) => {
            &&& action == DataAction::Copy
            &&& after.phase == DataPhase::Copying
        },
        (DataPhase::ConnectingLocal, DataEvent::LocalConnected(Err(cause))) => {
            &&& action == DataAction::Fail(
                ClientError::Connect { addr: before.args.service.local_addr, cause },
            )
            &&& after.phase == DataPhase::Closed
        },
        (DataPhase::Copying, DataEvent::Copied) => {
            &&& action == DataAction::Finish
            &&& after.phase == DataPhase::Closed
        },
        (DataPhase::Dialing, DataEvent::Dialed(Err(cause)))
        | (DataPhase::SendingHello, DataEvent::Sent(Err(cause)))
        | (DataPhase::ReadingCmd, DataEvent::CmdRead(Err(cause))) => {
            &&& action == DataAction::Fail(ClientError::Io(cause))
            &&& after.phase == DataPhase::Closed
        },
        _ => false,
    }
}

impl<T> DataChannel<T> {
    pub fn new(args: RunDataChannelArgs<T>) -> (r: DataChannel<T>)
        ensures
            r.args == args,
            r.phase == DataPhase::Idle,
    {
        DataChannel { args, phase: DataPhase::Idle }
    }

    /// Starts the channel: the connection goes to the server's address, from
    /// port 4444 of any interface.
    pub fn begin(&mut self) -> (action: DataAction)
        ensures
            final(self).args == old(self).args,
            final(self).phase == DataPhase::Dialing,
            action matches DataAction::Dial { bind_addr, remote_addr, server_name } && bind_addr == (
            SocketAddr::V4 { ip4: 0, port: 4444 }) && remote_addr == old(self).args.remote_addr
                && server_name@ == SERVER_NAME@,
    {
        self.phase = DataPhase::Dialing;
        DataAction::Dial {
            bind_addr: SocketAddr::V4 { ip4: 0, port: 4444 },
            remote_addr: self.args.remote_addr,
            server_name: SERVER_NAME.to_owned(),
        }
    }

    /// Takes the event that the last action led to, and gives the next action.
    pub fn step(&mut self, event: DataEvent) -> (action: DataAction)
        requires
            data_expects(*old(self), event),
        ensures
            data_step(*old(self), event, *final(self), action),
    {
        match (self.phase, event) {
            (DataPhase::Dialing, DataEvent::Dialed(Ok(_))) => {
                self.phase = DataPhase::OpeningStream;
                DataAction::OpenStream
            },
            (DataPhase::OpeningStream, DataEvent::StreamOpened) => {
                let hello = Hello::DataChannelHello(CURRENT_PROTO_VERSION, self.args.session_key);
                self.phase = DataPhase::SendingHello;
                DataAction::Send(hello.encode())
            },
            (DataPhase::SendingHello, DataEvent::Sent(Ok(_))) => {
                self.phase = DataPhase::ReadingCmd;
                DataAction::ReadCmd
            },
            (DataPhase::ReadingCmd, DataEvent::CmdRead(Ok(cmd))) => match cmd {
                DataChannelCmd::StartForwardTcp => {
                    if self.args.service.service_type != ServiceType::Tcp {
                        self.phase = DataPhase::Closed;
                        DataAction::Fail(ClientError::ExpectTcp)
                    } else {
                        self.phase = DataPhase::ConnectingLocal;
                        DataAction::ConnectLocal(self.args.service.local_addr.clone())
                    }
                },
                DataChannelCmd::StartForwardUdp => {
                    self.phase = DataPhase::Closed;
                    DataAction::Finish
                },
            },
            (DataPhase::ConnectingLocal, DataEvent::LocalConnected(Ok(_))) => {
                self.phase = DataPhase::Copying;
                DataAction::Copy
            },
            (DataPhase::ConnectingLocal, DataEvent::LocalConnected(Err(cause))) => {
                self.phase = DataPhase::Closed;
                DataAction::Fail(
                    ClientError::Connect { addr: self.args.service.local_addr.clone(), cause },
                )
            },
            (DataPhase::Copying, DataEvent::Copied) => {
                self.phase = DataPhase::Closed;
                DataAction::Finish
            },
            (DataPhase::Dialing, DataEvent::Dialed(Err(cause)))
            | (DataPhase::SendingHello, DataEvent::Sent(Err(cause)))
            | (DataPhase::ReadingCmd, DataEvent::CmdRead(Err(cause))) => {
                self.phase = DataPhase::Closed;
                DataAction::Fail(ClientError::Io(cause))
            },
            _ => vstd::pervasive::unreached(),
        }
    }
}

/// The history of a data channel: the state after [`DataChannel::begin`] and
/// after each step, with the event and the action of each step.
pub struct DataHistory<T> {
    pub states: Seq<DataChannel<T>>,
    pub events: Seq<DataEvent>,
    pub actions: Seq<DataAction>,
}

impl<T> DataHistory<T> {
    pub open spec fn valid(self) -> bool {
        &&& self.states.len() == self.events.len() + 1
        &&& self.actions.len() == self.events.len()
        &&& self.states[0].phase == DataPhase::Dialing
        &&& forall|i: int|
            0 <= i < self.events.len() ==> data_step(
                #[trigger] self.states[i],
                self.events[i],
                self.states[i + 1],
                self.actions[i],
            )
    }

    /// The channel sent its hello, with the session key, before step `n`.
    pub open spec fn joined(self, n: int) -> bool {
        exists|i: int|
            0 <= i < n && (#[trigger] self.actions[i] matches DataAction::Send(bytes) && bytes@
                == crate::protocol::hello_bytes(data_hello(self.states[0].args.session_key)))
    }

    /// The server asked for TCP traffic before step `n`.
    pub open spec fn asked_for_tcp(self, n: int) -> bool {
        exists|i: int|
            0 <= i < n && #[trigger] self.events[i] == DataEvent::CmdRead(
                Ok(DataChannelCmd::StartForwardTcp),
            )
    }
}

proof fn lemma_data_history<T>(h: DataHistory<T>, n: int)
    requires
        h.valid(),
        0 <= n <= h.events.len(),
    ensures
        h.states[n].args == h.states[0].args,
        match h.states[n].phase {
            DataPhase::SendingHello | DataPhase::ReadingCmd => h.joined(n),
            DataPhase::ConnectingLocal | DataPhase::Copying => h.joined(n) && h.asked_for_tcp(n)
                && h.states[0].args.service.service_type == ServiceType::Tcp,
            _ => true,
        },
    decreases n,
{
    if n > 0 {
        lemma_data_history(h, n - 1);
        let m = n - 1;
        assert(data_step(h.states[m], h.events[m], h.states[m + 1], h.actions[m]));
        assert(h.joined(m) ==> h.joined(n)) by {
            if h.joined(m) {
                let i = choose|i: int|
                    0 <= i < m && (#[trigger] h.actions[i] matches DataAction::Send(bytes) && bytes@
                        == crate::protocol::hello_bytes(data_hello(h.states[0].args.session_key)));
                assert(h.actions[i] is Send);
            }
        }
        assert(h.asked_for_tcp(m) ==> h.asked_for_tcp(n)) by {
            if h.asked_for_tcp(m) {
                let i = choose|i: int|
                    0 <= i < m && #[trigger] h.events[i] == DataEvent::CmdRead(
                        Ok(DataChannelCmd::StartForwardTcp),
                    );
                assert(h.events[i] is CmdRead);
            }
        }
        if h.states[n].phase == DataPhase::SendingHello {
            assert(h.actions[m] is Send);
        }
        if h.states[m].phase == DataPhase::ReadingCmd {
            assert(h.events[m] is CmdRead);
        }
    }
}

/// A local service is connected to, and traffic copied, only for a service that
/// carries TCP, only after the channel has joined the session with its key, and
/// only because the server asked for it.
pub proof fn data_forwards_only_on_request<T>(h: DataHistory<T>, n: int)
    requires
        h.valid(),
        0 <= n < h.events.len(),
        h.actions[n] is ConnectLocal || h.actions[n] is Copy,
    ensures
        h.states[0].args.service.service_type == ServiceType::Tcp,
        h.joined(n),
        h.asked_for_tcp(n + 1),
        h.actions[n] matches DataAction::ConnectLocal(addr) ==> addr
            == h.states[0].args.service.local_addr,
{
    lemma_data_history(h, n);
    lemma_data_history(h, n + 1);
    assert(data_step(h.states[n], h.events[n], h.states[n + 1], h.actions[n]));
}

/// The hello, with the session key, is all that a channel sends by itself.
pub proof fn data_hello_is_the_only_message<T>(h: DataHistory<T>, n: int)
    requires
        h.valid(),
        0 <= n < h.events.len(),
        h.actions[n] is Send,
    ensures
        h.actions[n] matches DataAction::Send(bytes) && bytes@ == crate::protocol::hello_bytes(
            data_hello(h.states[0].args.session_key),
        ),
{
    lemma_data_history(h, n);
    assert(data_step(h.states[n], h.events[n], h.states[n + 1], h.actions[n]));
}

/// Whatever a channel's step answers, the channel goes on only while something is
/// left to do: it is closed exactly when the step finished it or failed it.
pub proof fn data_closes_when_done<T>(
    before: DataChannel<T>,
    event: DataEvent,
    after: DataChannel<T>,
    action: DataAction,
)
    requires
        data_step(before, event, after, action),
    ensures
        after.phase == DataPhase::Closed <==> (action is Finish || action is Fail),
{
}

} // verus!
