//! Laws of the client and its services.

use std::sync::Arc;
use vstd::prelude::*;

use crate::client::{Client, ClientAction, ClientEvent, ClientHistory, ClientPhase};
use crate::config::{ClientConfig, ClientServiceChange, ClientServiceConfig, ConfigChange};
use crate::error::ClientError;
use crate::outside;

verus! {

/// `action` starts one new control channel: for `service`, to the client's server,
/// over the client's transport and with the client's heartbeat limit, under the
/// SHA-256 hash of the service's name.
pub open spec fn starts_service<T, H>(
    action: ClientAction<T, H>,
    service: ClientServiceConfig,
    config: ClientConfig,
    transport: Arc<T>,
) -> bool {
    action matches ClientAction::Start(channel) && {
        &&& channel.service == service
        &&& channel.remote_addr == config.remote_addr
        &&& channel.transport == transport
        &&& channel.heartbeat_timeout == config.heartbeat_timeout
        &&& channel.digest@ == outside::sha256(vstd::utf8::encode_utf8(service.name@))
        &&& channel.phase is Idle
    }
}

/// `after` has `handle` under `name`, and is like `before` under every other name.
pub open spec fn only_adds<H>(
    before: Map<Seq<char>, H>,
    after: Map<Seq<char>, H>,
    name: Seq<char>,
    handle: H,
) -> bool {
    &&& after.dom().contains(name) && after[name] == handle
    &&& forall|k: Seq<char>|
        k != name ==> (#[trigger] after.dom().contains(k) <==> before.dom().contains(k))
    &&& forall|k: Seq<char>|
        k != name && #[trigger] after.dom().contains(k) ==> after[k] == before[k]
}

/// `after` has nothing under `name`, and is like `before` under every other name.
pub open spec fn only_drops<H>(
    before: Map<Seq<char>, H>,
    after: Map<Seq<char>, H>,
    name: Seq<char>,
) -> bool {
    &&& !after.dom().contains(name)
    &&& forall|k: Seq<char>|
        k != name ==> (#[trigger] after.dom().contains(k) <==> before.dom().contains(k))
    &&& forall|k: Seq<char>| #[trigger] after.dom().contains(k) ==> after[k] == before[k]
}

/// `ended` is what `before` had under `name`, if it had anything.
pub open spec fn gives_up<H>(before: Map<Seq<char>, H>, name: Seq<char>, ended: Option<H>) -> bool {
    &&& ended is Some <==> before.dom().contains(name)
    &&& ended matches Some(handle) ==> handle == before[name]
}

/// A client can be made exactly where its transport was. It has the configuration
/// and the transport, and runs nothing. Otherwise the cause is told.
pub proof fn client_needs_its_transport<T, H>(
    config: ClientConfig,
    transport: Result<T, String>,
    r: Result<Client<T, H>, ClientError>,
)
    requires
        call_ensures(Client::<T, H>::from, (config, transport), r),
    ensures
        r is Ok <==> transport is Ok,
        r matches Ok(client) ==> {
            &&& client.config == config
            &&& *client.transport == transport->Ok_0
            &&& client.service_handles@.dom() =~= Set::<Seq<char>>::empty()
            &&& client.phase is Idle
        },
        r matches Err(e) ==> e == ClientError::CreateTransport(transport->Err_0),
{
}

/// A client begins with the first service of its configuration, and waits where
/// there is none.
pub proof fn client_begins_with_its_services<T, H>(
    client: &mut Client<T, H>,
    action: ClientAction<T, H>,
)
    requires
        call_ensures(Client::<T, H>::begin, (client,), action),
    ensures
        old(client).config.services.listing().len() == 0 ==> action is Wait && final(client).phase
            is Waiting,
        old(client).config.services.listing().len() > 0 ==> {
            &&& starts_service(
                action,
                old(client).config.services.listing()[0].1,
                old(client).config,
                old(client).transport,
            )
            &&& final(client).phase == ClientPhase::Starting(0)
        },
        final(client).config == old(client).config,
        final(client).transport == old(client).transport,
        final(client).service_handles == old(client).service_handles,
{
}

/// Whatever happens, the configuration and the transport stay.
pub proof fn client_keeps_its_configuration<T, H>(
    client: &mut Client<T, H>,
    event: ClientEvent<H>,
    r: (ClientAction<T, H>, Option<H>),
)
    requires
        call_ensures(Client::<T, H>::step, (client, event), r),
    ensures
        final(client).config == old(client).config,
        final(client).transport == old(client).transport,
{
}

/// A service that is added is started, at the client's server and not elsewhere, and
/// until its channel runs nothing else changes.
pub proof fn added_service_is_started<T, H>(
    client: &mut Client<T, H>,
    service: ClientServiceConfig,
    r: (ClientAction<T, H>, Option<H>),
)
    requires
        call_ensures(
            Client::<T, H>::step,
            (
                client,
                ClientEvent::Update(
                    Some(ConfigChange::ClientChange(ClientServiceChange::Add(service))),
                ),
            ),
            r,
        ) || call_ensures(
            Client::<T, H>::handle_hot_reload,
            (client, ConfigChange::ClientChange(ClientServiceChange::Add(service))),
            r,
        ),
    ensures
        starts_service(r.0, service, old(client).config, old(client).transport),
        r.1 is None,
        final(client).service_handles@ == old(client).service_handles@,
        final(client).phase == ClientPhase::Adding(service.name),
        final(client).config == old(client).config,
        final(client).transport == old(client).transport,
{
}

/// A service that is deleted gives up its handle, if it had one; no other does.
pub proof fn deleted_service_gives_up_its_handle<T, H>(
    client: &mut Client<T, H>,
    name: String,
    r: (ClientAction<T, H>, Option<H>),
)
    requires
        call_ensures(
            Client::<T, H>::step,
            (
                client,
                ClientEvent::Update(
                    Some(ConfigChange::ClientChange(ClientServiceChange::Delete(name))),
                ),
            ),
            r,
        ) || call_ensures(
            Client::<T, H>::handle_hot_reload,
            (client, ConfigChange::ClientChange(ClientServiceChange::Delete(name))),
            r,
        ),
    ensures
        r.0 is Wait,
        only_drops(old(client).service_handles@, final(client).service_handles@, name@),
        gives_up(old(client).service_handles@, name@, r.1),
        final(client).phase is Waiting,
        final(client).config == old(client).config,
        final(client).transport == old(client).transport,
{
}

/// A change that does not concern a client is told and changes nothing.
pub proof fn other_change_is_ignored<T, H>(
    client: &mut Client<T, H>,
    text: String,
    r: (ClientAction<T, H>, Option<H>),
)
    requires
        call_ensures(
            Client::<T, H>::step,
            (client, ClientEvent::Update(Some(ConfigChange::Other(text)))),
            r,
        ) || call_ensures(
            Client::<T, H>::handle_hot_reload,
            (client, ConfigChange::Other(text)),
            r,
        ),
    ensures
        r.0 == ClientAction::<T, H>::Ignore(text),
        r.1 is None,
        final(client).service_handles@ == old(client).service_handles@,
        final(client).phase is Waiting,
        final(client).config == old(client).config,
        final(client).transport == old(client).transport,
{
}

/// When no more changes will be told, the client goes on with what it has.
pub proof fn end_of_changes_changes_nothing<T, H>(
    client: &mut Client<T, H>,
    r: (ClientAction<T, H>, Option<H>),
)
    requires
        call_ensures(Client::<T, H>::step, (client, ClientEvent::Update(None)), r),
    ensures
        r.0 is Wait,
        r.1 is None,
        final(client).service_handles@ == old(client).service_handles@,
        final(client).phase is Waiting,
{
}

/// The handle of a started service is held under the service's own name: that of
/// the service that was added, or of the one whose turn it was. What had the name
/// before gives up its handle. The next service of the configuration follows, and
/// after the last one, as after an added one, the client waits.
pub proof fn started_service_is_held<T, H>(
    client: &mut Client<T, H>,
    handle: H,
    r: (ClientAction<T, H>, Option<H>),
)
    requires
        call_ensures(Client::<T, H>::step, (client, ClientEvent::Started(handle)), r),
    ensures
        match old(client).phase {
            ClientPhase::Adding(name) => {
                &&& only_adds(
                    old(client).service_handles@,
                    final(client).service_handles@,
                    name@,
                    handle,
                )
                &&& gives_up(old(client).service_handles@, name@, r.1)
                &&& r.0 is Wait
                &&& final(client).phase is Waiting
            },
            ClientPhase::Starting(i) => {
                let services = old(client).config.services.listing();
                let name = services[i as int].0@;
                &&& only_adds(
                    old(client).service_handles@,
                    final(client).service_handles@,
                    name,
                    handle,
                )
                &&& gives_up(old(client).service_handles@, name, r.1)
                &&& i + 1 < services.len() ==> starts_service(
                    r.0,
                    services[i + 1].1,
                    old(client).config,
                    old(client).transport,
                ) && final(client).phase == ClientPhase::Starting((i + 1) as usize)
                &&& i + 1 >= services.len() ==> r.0 is Wait && final(client).phase is Waiting
            },
            _ => false,
        },
{
}

/// On the shutdown signal, or where waiting for it failed, every handle is to be
/// shut down, each once, and none is kept.
pub proof fn shutdown_reaches_every_service<T, H>(
    client: &mut Client<T, H>,
    signal: Result<bool, String>,
    r: (ClientAction<T, H>, Option<H>),
)
    requires
        call_ensures(Client::<T, H>::step, (client, ClientEvent::Shutdown(signal)), r),
    ensures
        r.1 is None,
        r.0 matches ClientAction::Finish(all) && {
            let handles = old(client).service_handles@;
            &&& forall|k: Seq<char>| #[trigger]
                handles.dom().contains(k) ==> exists|i: int|
                    0 <= i < all@.len() && (#[trigger] all@[i]).0@ == k && all@[i].1 == handles[k]
            &&& forall|i: int|
                0 <= i < all@.len() ==> handles.dom().contains((#[trigger] all@[i]).0@)
            &&& forall|i: int, j: int|
                0 <= i < j < all@.len() ==> (#[trigger] all@[i]).0@ != (#[trigger] all@[j]).0@
        },
        forall|k: Seq<char>| !final(client).service_handles@.dom().contains(k),
        final(client).phase is Closed,
{
    let all = r.0->Finish_0;
    let keys = crate::table::keys_of(all@);
    let handles = old(client).service_handles@;
    assert forall|k: Seq<char>| #[trigger] handles.dom().contains(k) implies exists|i: int|
        0 <= i < all@.len() && (#[trigger] all@[i]).0@ == k && all@[i].1 == handles[k] by {
        let i = keys.index_of(k);
        assert(keys[i] == k && 0 <= i < keys.len());
        assert(all@[i].0@ == k);
    }
    assert forall|i: int| 0 <= i < all@.len() implies handles.dom().contains(
        (#[trigger] all@[i]).0@,
    ) by {
        assert(keys[i] == all@[i].0@);
        assert(keys.contains(keys[i]));
    }
    assert forall|i: int, j: int| 0 <= i < j < all@.len() implies (#[trigger] all@[i]).0@ != (
    #[trigger] all@[j]).0@ by {
        assert(keys[i] == all@[i].0@ && keys[j] == all@[j].0@);
    }
}

/// A client is shut down by nothing but the shutdown signal.
pub proof fn only_shutdown_finishes<T, H>(
    client: &mut Client<T, H>,
    event: ClientEvent<H>,
    r: (ClientAction<T, H>, Option<H>),
)
    requires
        call_ensures(Client::<T, H>::step, (client, event), r),
    ensures
        r.0 is Finish <==> event is Shutdown,
        final(client).phase is Closed <==> event is Shutdown,
{
}

/// After each action the client waits for what comes of it, and takes any outcome.
pub proof fn client_takes_every_answer<T, H>(
    client: &mut Client<T, H>,
    event: ClientEvent<H>,
    r: (ClientAction<T, H>, Option<H>),
    next: &mut Client<T, H>,
    answer: ClientEvent<H>,
)
    requires
        call_ensures(Client::<T, H>::step, (client, event), r),
        old(client).config.services.listing().len() <= usize::MAX,
        *old(next) == *final(client),
        match r.0 {
            ClientAction::Start(_) => answer is Started,
            ClientAction::Wait | ClientAction::Ignore(_) => answer is Shutdown || answer is Update,
            ClientAction::Finish(_) => false,
        },
    ensures
        call_requires(Client::<T, H>::step, (next, answer)),
{
}

/// The first answer is taken too.
pub proof fn client_takes_the_first_answer<T, H>(
    client: &mut Client<T, H>,
    action: ClientAction<T, H>,
    next: &mut Client<T, H>,
    answer: ClientEvent<H>,
)
    requires
        call_ensures(Client::<T, H>::begin, (client,), action),
        *old(next) == *final(client),
        match action {
            ClientAction::Start(_) => answer is Started,
            _ => answer is Shutdown || answer is Update,
        },
    ensures
        call_requires(Client::<T, H>::step, (next, answer)),
{
}

/// A client that runs starts each service of its configuration in turn, at its own
/// server and for nothing but that service, before it waits for anything else.
pub proof fn every_service_is_offered<T, H>(h: ClientHistory<T, H>, i: int)
    requires
        h.valid(),
        crate::table::keys_of(h.states[0].config.services.listing()).no_duplicates(),
        h.states[0].config.services.listing().len() <= usize::MAX,
        h.events.len() >= h.states[0].config.services.listing().len(),
        0 <= i < h.states[0].config.services.listing().len(),
    ensures
        starts_service(
            if i == 0 {
                h.first
            } else {
                h.actions[i - 1]
            },
            h.states[0].config.services.listing()[i].1,
            h.states[0].config,
            h.states[0].transport,
        ),
        h.events[i] is Started,
{
    crate::client::every_service_is_started(h);
    assert(h.action_before(i) is Start);
    assert(h.events[i] is Started);
}

} // verus!
