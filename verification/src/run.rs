//! A run of a client from its configuration to its result.

use vstd::prelude::*;

use crate::client::{Client, ClientAction, ClientEvent, ClientHistory, ClientPhase};
use crate::config::{ClientConfig, Config, TransportType};
use crate::error::ClientError;

verus! {

/// Which of the optional transports this build has.
#[derive(Clone, Copy, Debug)]
pub struct Features {
    pub tls: bool,
    pub noise: bool,
}

/// How to run a client. What a [`ClientRun`] of the configuration returns, with
/// the transport that is named, is the result.
pub enum Launch {
    OverTcp(ClientConfig),
    OverTls(ClientConfig),
    OverNoise(ClientConfig),
    /// The configuration asks for a feature that this build does not have.
    NotCompiled(String),
    /// There is nothing to run, which is no failure.
    Nothing,
}

/// Whether `r` is how to run a client of `config`: over the transport that its
/// `[client]` block asks for, with that block, as far as this build has it.
pub open spec fn launches(
    config: Config,
    features: Features,
    r: Result<Launch, ClientError>,
) -> bool {
    match config.client {
        None => r == Err::<Launch, ClientError>(ClientError::MissingClientConfig),
        Some(client) => match client.transport_type {
            TransportType::Tcp => r == Ok::<Launch, ClientError>(Launch::OverTcp(client)),
            TransportType::Tls => if features.tls {
                r == Ok::<Launch, ClientError>(Launch::OverTls(client))
            } else {
                r matches Ok(Launch::NotCompiled(feature)) && feature@ == "tls"@
            },
            TransportType::Noise => if features.noise {
                r == Ok::<Launch, ClientError>(Launch::OverNoise(client))
            } else {
                r matches Ok(Launch::NotCompiled(feature)) && feature@ == "noise"@
            },
            TransportType::Quic => r == Ok::<Launch, ClientError>(Launch::Nothing),
        },
    }
}

/// Finds out how to run a client.
pub fn run_client(config: Config, features: Features) -> (r: Result<Launch, ClientError>)
    ensures
        launches(config, features, r),
{
    match config.client {
        None => Err(ClientError::MissingClientConfig),
        Some(client) => match client.transport_type {
            TransportType::Tcp => Ok(Launch::OverTcp(client)),
            TransportType::Tls => {
                if features.tls {
                    Ok(Launch::OverTls(client))
                } else {
                    Ok(Launch::NotCompiled("tls".to_owned()))
                }
            },
            TransportType::Noise => {
                if features.noise {
                    Ok(Launch::OverNoise(client))
                } else {
                    Ok(Launch::NotCompiled("noise".to_owned()))
                }
            },
            TransportType::Quic => Ok(Launch::Nothing),
        },
    }
}

/// How far a run has come.
pub enum RunPhase<T, H> {
    /// The transport is being made for a client with this configuration.
    Making(ClientConfig),
    Running(Client<T, H>),
    Closed,
}

/// What came of the last action.
pub enum RunEvent<T, H> {
    /// The transport was made, or could not be for this cause.
    Made(Result<T, String>),
    /// What the client waited for.
    Client(ClientEvent<H>),
    /// The client's channels are shut down.
    ShutDown,
}

/// What to do next.
pub enum RunAction<T, H> {
    /// What the client asks for. The handle is no longer needed.
    Do { action: ClientAction<T, H>, ended: Option<H> },
    /// The run is over, with this result.
    Return(Result<(), ClientError>),
}

/// Makes a client and runs it.
pub struct ClientRun<T, H> {
    pub phase: RunPhase<T, H>,
}

/// Whether `event` is an answer to what the run waits for.
pub open spec fn run_expects<T, H>(run: ClientRun<T, H>, event: RunEvent<T, H>) -> bool {
    match run.phase {
        RunPhase::Making(_) => event is Made,
        RunPhase::Running(client) => match event {
            RunEvent::Client(event) => crate::client::client_expects(client, event),
            RunEvent::ShutDown => client.phase == ClientPhase::Closed,
            RunEvent::Made(_) => false,
        },
        RunPhase::Closed => false,
    }
}

/// One step of a run: in the state `before`, `event` leads to the state `after`
/// and to `action`.
pub open spec fn run_step<T, H>(
    before: ClientRun<T, H>,
    event: RunEvent<T, H>,
    after: ClientRun<T, H>,
    action: RunAction<T, H>,
) -> bool {
    match (before.phase, event) {
        (RunPhase::Making(config), RunEvent::Made(Ok(transport))) => {
            &&& after.phase matches RunPhase::Running(client) && {
                &&& client.config == config
                &&& *client.transport == transport
                &&& client.service_handles@ == Map::<Seq<char>, H>::empty()
                &&& action matches RunAction::Do { action: first, ended } && ended is None
                    && crate::client::starts_from(config, client.transport, 0, client.phase, first)
            }
        },
        (RunPhase::Making(_), RunEvent::Made(Err(cause))) => {
            &&& after.phase is Closed
            &&& action == RunAction::<T, H>::Return(Err(ClientError::CreateTransport(cause)))
        },
        (RunPhase::Running(client), RunEvent::Client(happened)) => {
            &&& after.phase matches RunPhase::Running(next) && {
                &&& action matches RunAction::Do { action: wanted, ended } && crate::client::client_step(
                    client,
                    happened,
                    next,
                    wanted,
                    ended,
                )
            }
        },
        (RunPhase::Running(_), RunEvent::ShutDown) => {
            &&& after.phase is Closed
            &&& action matches RunAction::Return(Ok(_))
        },
        _ => false,
    }
}

impl<T, H> ClientRun<T, H> {
    /// A run that waits for its transport.
    pub fn new(config: ClientConfig) -> (r: ClientRun<T, H>)
        ensures
            r.phase == RunPhase::<T, H>::Making(config),
    {
        ClientRun { phase: RunPhase::Making(config) }
    }

    /// Takes the event that the last action led to, and gives the next action.
    pub fn step(&mut self, event: RunEvent<T, H>) -> (action: RunAction<T, H>)
        requires
            run_expects(*old(self), event),
        ensures
            run_step(*old(self), event, *final(self), action),
    {
        let mut phase = RunPhase::Closed;
        std::mem::swap(&mut phase, &mut self.phase);
        match (phase, event) {
            (RunPhase::Making(config), RunEvent::Made(made)) => match Client::from(config, made) {
                Ok(client) => {
                    let mut client = client;
                    let action = client.begin();
                    self.phase = RunPhase::Running(client);
                    RunAction::Do { action, ended: None }
                },
                Err(e) => RunAction::Return(Err(e)),
            },
            (RunPhase::Running(client), RunEvent::Client(happened)) => {
                let mut client = client;
                let (action, ended) = client.step(happened);
                self.phase = RunPhase::Running(client);
                RunAction::Do { action, ended }
            },
            (RunPhase::Running(_), RunEvent::ShutDown) => RunAction::Return(Ok(())),
            _ => vstd::pervasive::unreached(),
        }
    }
}

/// The history of a run: the state at the start and after each step, with the
/// event and the action of each step.
pub struct RunHistory<T, H> {
    pub states: Seq<ClientRun<T, H>>,
    pub events: Seq<RunEvent<T, H>>,
    pub actions: Seq<RunAction<T, H>>,
}

impl<T, H> RunHistory<T, H> {
    pub open spec fn valid(self) -> bool {
        &&& self.states.len() == self.events.len() + 1
        &&& self.actions.len() == self.events.len()
        &&& self.states[0].phase is Making
        &&& forall|i: int|
            0 <= i < self.events.len() ==> run_expects(#[trigger] self.states[i], self.events[i])
                && run_step(self.states[i], self.events[i], self.states[i + 1], self.actions[i])
    }

    /// What the client did up to the state `n`.
    pub open spec fn client_history(self, n: int) -> ClientHistory<T, H> {
        ClientHistory {
            first: self.actions[0]->action,
            states: Seq::new(n as nat, |i: int| self.states[i + 1].phase->Running_0),
            events: Seq::new((n - 1) as nat, |i: int| self.events[i + 1]->Client_0),
            actions: Seq::new((n - 1) as nat, |i: int| self.actions[i + 1]->action),
            ended: Seq::new((n - 1) as nat, |i: int| self.actions[i + 1]->ended),
        }
    }
}

proof fn lemma_running<T, H>(h: RunHistory<T, H>, n: int, i: int)
    requires
        h.valid(),
        0 < i <= n <= h.events.len(),
        h.states[n].phase is Running,
    ensures
        h.states[i].phase is Running,
        1 < i ==> h.events[i - 1] is Client,
    decreases n,
{
    let before = h.states[n - 1];
    assert(run_step(before, h.events[n - 1], h.states[n], h.actions[n - 1]));
    lemma_phase(h, n - 1);
    if 0 < i < n {
        lemma_running(h, n - 1, i);
    }
}

proof fn lemma_phase<T, H>(h: RunHistory<T, H>, n: int)
    requires
        h.valid(),
        0 <= n <= h.events.len(),
    ensures
        h.states[n].phase is Making <==> n == 0,
        h.states[n].phase is Closed ==> n == h.events.len(),
    decreases n,
{
    if n > 0 {
        lemma_phase(h, n - 1);
        let before = h.states[n - 1];
        assert(run_expects(before, h.events[n - 1]));
        assert(run_step(before, h.events[n - 1], h.states[n], h.actions[n - 1]));
        if h.states[n].phase is Closed && n < h.events.len() {
            let closed = h.states[n];
            assert(run_expects(closed, h.events[n]));
        }
    }
}

/// A run whose transport cannot be made returns that error at once, and starts no
/// service.
pub proof fn run_fails_without_transport<T, H>(h: RunHistory<T, H>, cause: String)
    requires
        h.valid(),
        h.events.len() > 0,
        h.events[0] == RunEvent::<T, H>::Made(Err(cause)),
    ensures
        h.actions =~= seq![
            RunAction::<T, H>::Return(Err(ClientError::CreateTransport(cause))),
        ],
{
    let first = h.states[0];
    assert(run_step(first, h.events[0], h.states[1], h.actions[0]));
    lemma_phase(h, 1);
}

/// The step `i` of a run is a step of its client.
#[verifier::opaque]
spec fn is_client_step<T, H>(h: RunHistory<T, H>, i: int) -> bool {
    &&& h.events[i] is Client
    &&& h.actions[i] is Do
    &&& crate::client::client_expects(h.states[i].phase->Running_0, h.events[i]->Client_0)
    &&& crate::client::client_step(
        h.states[i].phase->Running_0,
        h.events[i]->Client_0,
        h.states[i + 1].phase->Running_0,
        h.actions[i]->action,
        h.actions[i]->ended,
    )
}

proof fn lemma_is_client_step<T, H>(h: RunHistory<T, H>, n: int, i: int)
    requires
        h.valid(),
        0 < i < n <= h.events.len(),
        h.states[n].phase is Running,
    ensures
        is_client_step(h, i),
{
    reveal(is_client_step);
    lemma_running(h, n, i);
    lemma_running(h, n, i + 1);
    let before = h.states[i];
    assert(run_expects(before, h.events[i]));
    assert(run_step(before, h.events[i], h.states[i + 1], h.actions[i]));
}

proof fn lemma_client_history<T, H>(h: RunHistory<T, H>, n: int)
    requires
        0 < n <= h.events.len(),
        forall|i: int| 0 < i < n ==> #[trigger] is_client_step(h, i),
        h.states[1].phase->Running_0.service_handles@ == Map::<Seq<char>, H>::empty(),
        crate::client::starts_from(
            h.states[1].phase->Running_0.config,
            h.states[1].phase->Running_0.transport,
            0,
            h.states[1].phase->Running_0.phase,
            h.actions[0]->action,
        ),
    ensures
        h.client_history(n).valid(),
        forall|i: int|
            0 < i < n ==> #[trigger] h.events[i] == RunEvent::<T, H>::Client(
                h.client_history(n).events[i - 1],
            ),
        forall|i: int|
            0 < i < n ==> #[trigger] h.actions[i] == (RunAction::<T, H>::Do {
                action: h.client_history(n).actions[i - 1],
                ended: h.client_history(n).ended[i - 1],
            }),
{
    let c = h.client_history(n);
    assert forall|i: int| 0 <= i < n - 1 implies crate::client::client_expects(
        #[trigger] c.states[i],
        c.events[i],
    ) && crate::client::client_step(
        c.states[i],
        c.events[i],
        c.states[i + 1],
        c.actions[i],
        c.ended[i],
    ) by {
        assert(is_client_step(h, i + 1));
        reveal(is_client_step);
    }
    assert forall|i: int| 0 < i < n implies #[trigger] h.events[i] is Client by {
        assert(is_client_step(h, i));
        reveal(is_client_step);
    }
    assert forall|i: int| 0 < i < n implies #[trigger] h.actions[i] is Do by {
        assert(is_client_step(h, i));
        reveal(is_client_step);
    }
}

/// A run whose transport was made is the history of one client, with the run's
/// configuration and that transport.
pub proof fn run_is_the_history_of_its_client<T, H>(
    h: RunHistory<T, H>,
    config: ClientConfig,
    transport: T,
    n: int,
)
    requires
        h.valid(),
        0 < n <= h.events.len(),
        h.states[0].phase == RunPhase::<T, H>::Making(config),
        h.events[0] == RunEvent::<T, H>::Made(Ok(transport)),
        h.states[n].phase is Running,
    ensures
        h.client_history(n).valid(),
        h.client_history(n).states[0].config == config,
        *h.client_history(n).states[0].transport == transport,
        h.actions[0] == (RunAction::<T, H>::Do {
            action: h.client_history(n).first,
            ended: None,
        }),
        forall|i: int|
            0 < i < n ==> #[trigger] h.events[i] == RunEvent::<T, H>::Client(
                h.client_history(n).events[i - 1],
            ),
        forall|i: int|
            0 < i < n ==> #[trigger] h.actions[i] == (RunAction::<T, H>::Do {
                action: h.client_history(n).actions[i - 1],
                ended: h.client_history(n).ended[i - 1],
            }),
{
    let first = h.states[0];
    assert(run_step(first, h.events[0], h.states[1], h.actions[0]));
    assert forall|i: int| 0 < i < n implies #[trigger] is_client_step(h, i) by {
        lemma_is_client_step(h, n, i);
    }
    lemma_client_history(h, n);
}

/// A run whose transport was made returns only after its client has finished, on
/// the shutdown signal, and then it succeeds. Nothing happens after a run returned.
pub proof fn run_returns_when_its_client_is_done<T, H>(h: RunHistory<T, H>, n: int)
    requires
        h.valid(),
        0 < n < h.events.len(),
        h.actions[n] is Return,
    ensures
        h.actions[n] matches RunAction::Return(Ok(_)),
        h.events[n - 1] matches RunEvent::Client(ClientEvent::Shutdown(_)),
        h.actions[n - 1] matches RunAction::Do { action: ClientAction::Finish(_), .. },
        n + 1 == h.events.len(),
{
    lemma_phase(h, n);
    lemma_phase(h, n - 1);
    lemma_phase(h, n + 1);
    let (before, at_n) = (h.states[n - 1], h.states[n]);
    assert(run_expects(at_n, h.events[n]));
    assert(run_step(at_n, h.events[n], h.states[n + 1], h.actions[n]));
    assert(run_step(before, h.events[n - 1], at_n, h.actions[n - 1]));
}

/// The result of running a client is that of making it and running it: where the
/// configuration asks for a transport that this build has, and the run that this
/// leads to returns, the client had the configuration's `[client]` block. If its
/// transport could not be made, the result is that error, and nothing was started;
/// else the client has finished, and the result is a success.
pub proof fn run_client_returns_what_its_client_does<T, H>(
    config: Config,
    features: Features,
    launch: Launch,
    h: RunHistory<T, H>,
    n: int,
)
    requires
        launches(config, features, Ok(launch)),
        launch == Launch::OverTcp(h.states[0].phase->Making_0) || launch == Launch::OverTls(
            h.states[0].phase->Making_0,
        ) || launch == Launch::OverNoise(h.states[0].phase->Making_0),
        h.valid(),
        0 <= n < h.events.len(),
        h.actions[n] is Return,
    ensures
        config.client == Some(h.states[0].phase->Making_0),
        n + 1 == h.events.len(),
        match h.events[0] {
            RunEvent::Made(Err(cause)) => n == 0 && h.actions[n] == RunAction::<T, H>::Return(
                Err(ClientError::CreateTransport(cause)),
            ),
            RunEvent::Made(Ok(transport)) => {
                &&& h.client_history(n).valid()
                &&& h.client_history(n).states[0].config == h.states[0].phase->Making_0
                &&& *h.client_history(n).states[0].transport == transport
                &&& h.client_history(n).actions.last() is Finish
                &&& h.actions[n] matches RunAction::Return(Ok(_))
            },
            _ => false,
        },
{
    lemma_phase(h, n);
    lemma_phase(h, n + 1);
    let (first, at_n) = (h.states[0], h.states[n]);
    assert(run_expects(first, h.events[0]));
    assert(run_step(first, h.events[0], h.states[1], h.actions[0]));
    assert(run_step(at_n, h.events[n], h.states[n + 1], h.actions[n]));
    match h.events[0] {
        RunEvent::Made(Err(cause)) => {
            run_fails_without_transport(h, cause);
        },
        RunEvent::Made(Ok(transport)) => {
            assert(n > 0);
            run_returns_when_its_client_is_done(h, n);
            run_is_the_history_of_its_client(h, first.phase->Making_0, transport, n);
            lemma_phase(h, 1);
            assert(n > 1);
            assert(h.actions[n - 1] == (RunAction::<T, H>::Do {
                action: h.client_history(n).actions[n - 2],
                ended: h.client_history(n).ended[n - 2],
            }));
        },
        _ => {},
    }
}

} // verus!
