//! The client as a whole: which services it offers, and how that changes while
//! it runs.

use std::sync::Arc;
use vstd::prelude::*;

use crate::config::{ClientConfig, ClientServiceChange, ConfigChange};
use crate::control::ControlChannel;
use crate::error::ClientError;
use crate::table::Table;

verus! {

/// What a client waits for.
#[derive(Debug)]
pub enum ClientPhase {
    Idle,
    /// The service at this position of the configuration is being started.
    Starting(usize),
    /// A service that was added while the client runs is being started.
    Adding(String),
    Waiting,
    Closed,
}

pub enum ClientEvent<H> {
    /// The control channel that was to be started has this handle.
    Started(H),
    /// The shutdown signal came, or waiting for it failed.
    Shutdown(Result<bool, String>),
    /// The configuration changed, or no more changes will be told.
    Update(Option<ConfigChange>),
}

pub enum ClientAction<T, H> {
    /// Run this control channel beside the client.
    Start(ControlChannel<T>),
    /// Wait for the shutdown signal and for changes of the configuration.
    Wait,
    /// Warn that this change does not concern a client, then wait.
    Ignore(String),
    /// Shut down each of these channels; then the client is done.
    Finish(Vec<(String, H)>),
}

/// The state of a client. `T` is the transport of its control channels, and `H` is
/// a handle to a running one; dropping it ends the channel.
pub struct Client<T, H> {
    pub config: ClientConfig,
    pub service_handles: Table<String, H>,
    pub transport: Arc<T>,
    pub phase: ClientPhase,
}

/// The handle, if any, that `name` has.
pub open spec fn handle_of<H>(handles: Map<Seq<char>, H>, name: Seq<char>) -> Option<H> {
    if handles.dom().contains(name) {
        Some(handles[name])
    } else {
        None
    }
}

/// `channel` offers the service at position `i` of the configuration.
pub open spec fn offers_at<T>(
    channel: ControlChannel<T>,
    config: ClientConfig,
    transport: Arc<T>,
    i: int,
) -> bool {
    crate::control::offers(
        channel,
        config.services.listing()[i].1,
        config.remote_addr,
        transport,
        config.heartbeat_timeout,
    )
}

/// The services from position `i` on are to be started, before anything else.
pub open spec fn starts_from<T, H>(
    config: ClientConfig,
    transport: Arc<T>,
    i: int,
    phase: ClientPhase,
    action: ClientAction<T, H>,
) -> bool {
    if i < config.services.listing().len() {
        &&& phase == ClientPhase::Starting(i as usize)
        &&& action matches ClientAction::Start(channel) && offers_at(channel, config, transport, i)
    } else {
        &&& phase == ClientPhase::Waiting
        &&& action == ClientAction::<T, H>::Wait
    }
}

/// Whether `event` is one of those that the client waits for.
pub open spec fn client_expects<T, H>(client: Client<T, H>, event: ClientEvent<H>) -> bool {
    match client.phase {
        ClientPhase::Starting(i) => event is Started && i < client.config.services.listing().len(),
        ClientPhase::Adding(_) => event is Started,
        ClientPhase::Waiting => event is Shutdown || event is Update,
        ClientPhase::Idle | ClientPhase::Closed => false,
    }
}

/// One step of a client: in the state `before`, `event` leads to the state
/// `after` and to `action`, and `ended` is the handle that the client gives up.
pub open spec fn client_step<T, H>(
    before: Client<T, H>,
    event: ClientEvent<H>,
    after: Client<T, H>,
    action: ClientAction<T, H>,
    ended: Option<H>,
) -> bool {
    let handles = before.service_handles@;
    &&& after.config == before.config
    &&& after.transport == before.transport
    &&& match (before.phase, event) {
        (ClientPhase::Starting(i), ClientEvent::Started(handle)) => {
            let name = before.config.services.listing()[i as int].0@;
            &&& after.service_handles@ == handles.insert(name, handle)
            &&& ended == handle_of(handles, name)
            &&& starts_from(before.config, before.transport, i + 1, after.phase, action)
        },
        (ClientPhase::Adding(name), ClientEvent::Started(handle)) => {
            &&& after.service_handles@ == handles.insert(name@, handle)
            &&& ended == handle_of(handles, name@)
            &&& after.phase == ClientPhase::Waiting
            &&& action == ClientAction::<T, H>::Wait
        },
        (ClientPhase::Waiting, ClientEvent::Update(change)) => match change {
            Some(ConfigChange::ClientChange(ClientServiceChange::Add(service))) => {
                &&& after.service_handles@ == handles
                &&& ended is None
                &&& after.phase == ClientPhase::Adding(service.name)
                &&& action matches ClientAction::Start(channel) && crate::control::offers(
                    channel,
                    service,
                    before.config.remote_addr,
                    before.transport,
                    before.config.heartbeat_timeout,
                )
            },
            Some(ConfigChange::ClientChange(ClientServiceChange::Delete(name))) => {
                &&& after.service_handles@ == handles.remove(name@)
                &&& ended == handle_of(handles, name@)
                &&& after.phase == ClientPhase::Waiting
                &&& action == ClientAction::<T, H>::Wait
            },
            Some(ConfigChange::Other(text)) => {
                &&& after.service_handles@ == handles
                &&& ended is None
                &&& after.phase == ClientPhase::Waiting
                &&& action == ClientAction::<T, H>::Ignore(text)
            },
            None => {
                &&& after.service_handles@ == handles
                &&& ended is None
                &&& after.phase == ClientPhase::Waiting
                &&& action == ClientAction::<T, H>::Wait
            },
        },
        (ClientPhase::Waiting, ClientEvent::Shutdown(_)) => {
            &&& after.service_handles@ == Map::<Seq<char>, H>::empty()
            &&& ended is None
            &&& after.phase == ClientPhase::Closed
            &&& action matches ClientAction::Finish(all) && crate::table::contents(all@) == handles
                && crate::table::keys_of(all@).no_duplicates()
        },
        _ => false,
    }
}

impl<T, H> Client<T, H> {
    /// A client that runs nothing yet, where its transport could be made.
    pub fn from(config: ClientConfig, transport: Result<T, String>) -> (r: Result<
        Client<T, H>,
        ClientError,
    >)
        ensures
            match transport {
                Ok(made) => r matches Ok(client) && {
                    &&& client.config == config
                    &&& *client.transport == made
                    &&& client.service_handles@ == Map::<Seq<char>, H>::empty()
                    &&& client.phase == ClientPhase::Idle
                },
                Err(cause) => r == Err::<Client<T, H>, ClientError>(
                    ClientError::CreateTransport(cause),
                ),
            },
    {
        match transport {
            Ok(made) => Ok(
                Client {
                    config,
                    service_handles: Table::new(),
                    transport: Arc::new(made),
                    phase: ClientPhase::Idle,
                },
            ),
            Err(cause) => Err(ClientError::CreateTransport(cause)),
        }
    }

    /// Goes on with the service at position `i`, or waits where there is none.
    fn start_from(&mut self, i: usize) -> (action: ClientAction<T, H>)
        ensures
            final(self).config == old(self).config,
            final(self).service_handles == old(self).service_handles,
            final(self).transport == old(self).transport,
            starts_from(old(self).config, old(self).transport, i as int, final(self).phase, action),
    {
        if i < self.config.services.len() {
            self.phase = ClientPhase::Starting(i);
            let (_, service) = self.config.services.at(i);
            ClientAction::Start(
                ControlChannel::new(
                    service.clone(),
                    self.config.remote_addr.clone(),
                    crate::outside::share(&self.transport),
                    self.config.heartbeat_timeout,
                ),
            )
        } else {
            self.phase = ClientPhase::Waiting;
            ClientAction::Wait
        }
    }

    /// Starts the client: its services come first, one after the other.
    pub fn begin(&mut self) -> (action: ClientAction<T, H>)
        ensures
            final(self).config == old(self).config,
            final(self).service_handles == old(self).service_handles,
            final(self).transport == old(self).transport,
            starts_from(old(self).config, old(self).transport, 0, final(self).phase, action),
    {
        self.start_from(0)
    }

    /// Applies a change of the configuration. A service that is added is started
    /// first; one that is deleted gives up its handle at once; any other change is
    /// ignored.
    pub fn handle_hot_reload(&mut self, change: ConfigChange) -> (r: (ClientAction<T, H>, Option<H>))
        requires
            old(self).phase == ClientPhase::Waiting,
        ensures
            client_step(
                *old(self),
                ClientEvent::Update(Some(change)),
                *final(self),
                r.0,
                r.1,
            ),
    {
        match change {
            ConfigChange::ClientChange(ClientServiceChange::Add(service)) => {
                self.phase = ClientPhase::Adding(service.name.clone());
                let channel = ControlChannel::new(
                    service,
                    self.config.remote_addr.clone(),
                    crate::outside::share(&self.transport),
                    self.config.heartbeat_timeout,
                );
                (ClientAction::Start(channel), None)
            },
            ConfigChange::ClientChange(ClientServiceChange::Delete(name)) => {
                let ended = self.service_handles.remove(&name);
                (ClientAction::Wait, ended)
            },
            ConfigChange::Other(text) => (ClientAction::Ignore(text), None),
        }
    }

    /// Takes the event that the last action led to, and gives the next action,
    /// with the handle that is no longer needed.
    pub fn step(&mut self, event: ClientEvent<H>) -> (r: (ClientAction<T, H>, Option<H>))
        requires
            client_expects(*old(self), event),
        ensures
            client_step(*old(self), event, *final(self), r.0, r.1),
    {
        match event {
            ClientEvent::Started(handle) => {
                let name = match &self.phase {
                    ClientPhase::Starting(i) => {
                        let (name, _) = self.config.services.at(*i);
                        name.clone()
                    },
                    ClientPhase::Adding(name) => name.clone(),
                    _ => vstd::pervasive::unreached(),
                };
                let ended = self.service_handles.insert(name, handle);
                match &self.phase {
                    ClientPhase::Starting(i) => {
                        let i: usize = *i;
                        let count: usize = self.config.services.len();
                        assert(i < count);
                        (self.start_from(i + 1), ended)
                    },
                    _ => {
                        self.phase = ClientPhase::Waiting;
                        (ClientAction::Wait, ended)
                    },
                }
            },
            ClientEvent::Update(Some(change)) => self.handle_hot_reload(change),
            ClientEvent::Update(None) => (ClientAction::Wait, None),
            ClientEvent::Shutdown(_) => {
                self.phase = ClientPhase::Closed;
                (ClientAction::Finish(self.service_handles.drain()), None)
            },
        }
    }
}

/// The history of a client: the action of [`Client::begin`], the state after it and
/// after each step, with the event, the action and the given-up handle of each step.
pub struct ClientHistory<T, H> {
    pub first: ClientAction<T, H>,
    pub states: Seq<Client<T, H>>,
    pub events: Seq<ClientEvent<H>>,
    pub actions: Seq<ClientAction<T, H>>,
    pub ended: Seq<Option<H>>,
}

impl<T, H> ClientHistory<T, H> {
    pub open spec fn valid(self) -> bool {
        let first = self.states[0];
        &&& self.states.len() == self.events.len() + 1
        &&& self.actions.len() == self.events.len()
        &&& self.ended.len() == self.events.len()
        &&& first.service_handles@ == Map::<Seq<char>, H>::empty()
        &&& starts_from(first.config, first.transport, 0, first.phase, self.first)
        &&& forall|i: int|
            0 <= i < self.events.len() ==> client_expects(#[trigger] self.states[i], self.events[i])
                && client_step(
                self.states[i],
                self.events[i],
                self.states[i + 1],
                self.actions[i],
                self.ended[i],
            )
    }

    /// The action that led to the event `i`.
    pub open spec fn action_before(self, i: int) -> ClientAction<T, H> {
        if i == 0 {
            self.first
        } else {
            self.actions[i - 1]
        }
    }
}

proof fn lemma_starting<T, H>(h: ClientHistory<T, H>, n: int)
    requires
        h.valid(),
        crate::table::keys_of(h.states[0].config.services.listing()).no_duplicates(),
        h.states[0].config.services.listing().len() <= usize::MAX,
        0 <= n <= h.states[0].config.services.listing().len(),
        n <= h.events.len(),
    ensures
        ({
            let listing = h.states[0].config.services.listing();
            let handles = h.states[n].service_handles@;
            &&& h.states[n].config == h.states[0].config
            &&& h.states[n].transport == h.states[0].transport
            &&& h.states[n].phase == if n < listing.len() {
                ClientPhase::Starting(n as usize)
            } else {
                ClientPhase::Waiting
            }
            &&& forall|i: int| 0 <= i < n ==> #[trigger] h.events[i] is Started
            &&& forall|i: int|
                0 <= i < n ==> handle_of(handles, #[trigger] crate::table::keys_of(listing)[i])
                    == Some(h.events[i]->Started_0)
            &&& forall|k: Seq<char>| #[trigger]
                handles.dom().contains(k) ==> crate::table::keys_of(listing).contains(k)
        }),
    decreases n,
{
    let listing = h.states[0].config.services.listing();
    let keys = crate::table::keys_of(listing);
    if n > 0 {
        let m = n - 1;
        lemma_starting(h, m);
        let before = h.states[m];
        assert(client_expects(before, h.events[m]));
        assert(client_step(before, h.events[m], h.states[n], h.actions[m], h.ended[m]));
        let handles = h.states[n].service_handles@;
        assert(keys[m] == listing[m].0@);
        assert(keys.contains(keys[m]));
        assert forall|i: int| 0 <= i < n implies handle_of(handles, #[trigger] keys[i]) == Some(
            h.events[i]->Started_0,
        ) by {
            if i < m {
                assert(keys[i] != keys[m]);
            }
        }
    }
}

/// A client first starts every service of its configuration, each once, and then
/// waits: it holds a handle for each service and for nothing else.
pub proof fn every_service_is_started<T, H>(h: ClientHistory<T, H>)
    requires
        h.valid(),
        crate::table::keys_of(h.states[0].config.services.listing()).no_duplicates(),
        h.states[0].config.services.listing().len() <= usize::MAX,
        h.events.len() >= h.states[0].config.services.listing().len(),
    ensures
        ({
            let services = h.states[0].config.services;
            let started = h.states[services.listing().len() as int];
            &&& started.phase == ClientPhase::Waiting
            &&& started.service_handles@.dom() == services@.dom()
            &&& forall|i: int|
                0 <= i < services.listing().len() ==> {
                    &&& #[trigger] h.events[i] is Started
                    &&& started.service_handles@[services.listing()[i].0@]
                        == h.events[i]->Started_0
                }
            &&& forall|i: int|
                0 <= i < services.listing().len() ==> (#[trigger] h.action_before(i) matches
                    ClientAction::Start(channel) && offers_at(
                    channel,
                    h.states[0].config,
                    h.states[0].transport,
                    i,
                ))
        }),
{
    let services = h.states[0].config.services;
    let n = services.listing().len() as int;
    let keys = crate::table::keys_of(services.listing());
    lemma_starting(h, n);
    services.lemma_listing();
    let handles = h.states[n].service_handles@;
    assert forall|k: Seq<char>| services@.dom().contains(k) implies handles.dom().contains(k) by {
        let i = keys.index_of(k);
        assert(keys[i] == k && 0 <= i < n);
        assert(handle_of(handles, keys[i]) is Some);
    }
    assert(handles.dom() =~= services@.dom());
    assert forall|i: int| 0 <= i < n implies {
        &&& #[trigger] h.events[i] is Started
        &&& handles[services.listing()[i].0@] == h.events[i]->Started_0
    } by {
        assert(keys[i] == services.listing()[i].0@);
        assert(handle_of(handles, keys[i]) == Some(h.events[i]->Started_0));
    }
    assert forall|i: int| 0 <= i < n implies (#[trigger] h.action_before(i) matches
        ClientAction::Start(channel) && offers_at(
        channel,
        h.states[0].config,
        h.states[0].transport,
        i,
    )) by {
        if i > 0 {
            lemma_starting(h, i - 1);
            let before = h.states[i - 1];
            assert(client_step(
                before,
                h.events[i - 1],
                h.states[i],
                h.actions[i - 1],
                h.ended[i - 1],
            ));
        }
    }
}

/// A client is done exactly on the shutdown signal, even where waiting for the
/// signal failed.
pub proof fn client_stops_only_on_shutdown<T, H>(
    before: Client<T, H>,
    event: ClientEvent<H>,
    after: Client<T, H>,
    action: ClientAction<T, H>,
    ended: Option<H>,
)
    requires
        client_step(before, event, after, action, ended),
    ensures
        action is Finish <==> event is Shutdown,
        after.phase == ClientPhase::Closed <==> event is Shutdown,
{
}

/// No handle gets lost: after each step a service still has its handle, or the
/// handle is the one given up, or it is among those to shut down.
pub proof fn handles_are_kept_or_given_up<T, H>(
    before: Client<T, H>,
    event: ClientEvent<H>,
    after: Client<T, H>,
    action: ClientAction<T, H>,
    ended: Option<H>,
    name: Seq<char>,
)
    requires
        client_step(before, event, after, action, ended),
        before.service_handles@.dom().contains(name),
    ensures
        ({
            let handle = before.service_handles@[name];
            ||| handle_of(after.service_handles@, name) == Some(handle)
            ||| ended == Some(handle)
            ||| action matches ClientAction::Finish(all) && handle_of(
                crate::table::contents(all@),
                name,
            ) == Some(handle)
        }),
{
}

/// A service that is added while the client runs is held under its own name, in
/// place of one that had the name before; the other services stay as they are.
pub proof fn added_service_is_held<T, H>(
    s0: Client<T, H>,
    service: crate::config::ClientServiceConfig,
    s1: Client<T, H>,
    start: ClientAction<T, H>,
    ended1: Option<H>,
    handle: H,
    s2: Client<T, H>,
    wait: ClientAction<T, H>,
    ended2: Option<H>,
)
    requires
        client_step(
            s0,
            ClientEvent::Update(
                Some(ConfigChange::ClientChange(ClientServiceChange::Add(service))),
            ),
            s1,
            start,
            ended1,
        ),
        client_step(s1, ClientEvent::Started(handle), s2, wait, ended2),
    ensures
        s2.service_handles@ == s0.service_handles@.insert(service.name@, handle),
        ended1 is None,
        ended2 == handle_of(s0.service_handles@, service.name@),
        s2.phase == ClientPhase::Waiting,
        s2.config == s0.config,
        s2.transport == s0.transport,
{
}

/// A service that is deleted right after it was added leaves the client as it
/// was without a service of that name, and gives up the handle that it got.
pub proof fn deleted_service_is_gone<T, H>(
    s0: Client<T, H>,
    name: String,
    s1: Client<T, H>,
    action: ClientAction<T, H>,
    ended: Option<H>,
    handles: Map<Seq<char>, H>,
    handle: H,
)
    requires
        s0.service_handles@ == handles.insert(name@, handle),
        client_step(
            s0,
            ClientEvent::Update(
                Some(ConfigChange::ClientChange(ClientServiceChange::Delete(name))),
            ),
            s1,
            action,
            ended,
        ),
    ensures
        s1.service_handles@ == handles.remove(name@),
        ended == Some(handle),
{
    assert(handles.insert(name@, handle).remove(name@) =~= handles.remove(name@));
}

} // verus!
