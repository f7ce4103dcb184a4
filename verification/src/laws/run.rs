//! Laws of running a client.

use vstd::prelude::*;

use crate::client::{ClientAction, ClientEvent};
use crate::config::{ClientConfig, Config};
use crate::error::ClientError;
use crate::run::{run_client, ClientRun, Features, Launch, RunAction, RunEvent, RunPhase};

verus! {

/// A client runs over the transport that its block names, with that block, and over
/// no other, whatever else the build has. A transport that the build lacks is named;
/// what the build has beside it does not matter.
pub proof fn launch_is_the_one_configured(
    config: Config,
    features: Features,
    r: Result<Launch, ClientError>,
    block: ClientConfig,
)
    requires
        call_ensures(run_client, (config, features), r),
    ensures
        r == Ok::<Launch, ClientError>(Launch::OverTcp(block)) <==> (config.client == Some(block)
            && block.transport_type is Tcp),
        r == Ok::<Launch, ClientError>(Launch::OverTls(block)) <==> (config.client == Some(block)
            && block.transport_type is Tls && features.tls),
        r == Ok::<Launch, ClientError>(Launch::OverNoise(block)) <==> (config.client == Some(block)
            && block.transport_type is Noise && features.noise),
        r == Ok::<Launch, ClientError>(Launch::Nothing) <==> (config.client is Some
            && config.client->0.transport_type is Quic),
        r matches Ok(Launch::NotCompiled(feature)) ==> config.client is Some && {
            ||| feature@ == "tls"@ && config.client->0.transport_type is Tls && !features.tls
            ||| feature@ == "noise"@ && config.client->0.transport_type is Noise && !features.noise
        },
{
}

/// A configuration leads to an error exactly where it has no block for a client,
/// and that is what the error says.
pub proof fn launch_fails_without_a_block(
    config: Config,
    features: Features,
    r: Result<Launch, ClientError>,
)
    requires
        call_ensures(run_client, (config, features), r),
    ensures
        r is Err <==> config.client is None,
        r matches Err(e) ==> e is MissingClientConfig,
{
}

/// Only the feature that a configuration's transport needs makes a difference.
pub proof fn other_features_do_not_matter(
    config: Config,
    features: Features,
    r: Result<Launch, ClientError>,
    other_features: Features,
    other: Result<Launch, ClientError>,
)
    requires
        call_ensures(run_client, (config, features), r),
        call_ensures(run_client, (config, other_features), other),
        config.client is Some,
        config.client->0.transport_type is Tls ==> features.tls && other_features.tls,
        config.client->0.transport_type is Noise ==> features.noise && other_features.noise,
    ensures
        r == other,
{
}

/// Any configuration can be run in any build.
pub proof fn every_configuration_is_taken(config: Config, features: Features)
    ensures
        call_requires(run_client, (config, features)),
{
}

/// A run begins by making the transport for its configuration, and takes any
/// outcome of that.
pub proof fn run_makes_its_transport_first<T, H>(
    config: ClientConfig,
    r: ClientRun<T, H>,
    run: &mut ClientRun<T, H>,
    made: Result<T, String>,
)
    requires
        call_ensures(ClientRun::<T, H>::new, (config,), r),
        *old(run) == r,
    ensures
        r.phase == RunPhase::<T, H>::Making(config),
        call_requires(ClientRun::<T, H>::step, (run, RunEvent::Made(made))),
{
}

/// Once its transport is made, a run starts the first service of its configuration
/// over it, or waits where there is none; without a transport it returns the cause.
pub proof fn run_starts_with_its_transport<T, H>(
    run: &mut ClientRun<T, H>,
    config: ClientConfig,
    made: Result<T, String>,
    action: RunAction<T, H>,
)
    requires
        old(run).phase == RunPhase::<T, H>::Making(config),
        call_ensures(ClientRun::<T, H>::step, (run, RunEvent::Made(made)), action),
    ensures
        match made {
            Ok(transport) => final(run).phase matches RunPhase::Running(client) && {
                &&& client.config == config
                &&& *client.transport == transport
                &&& client.service_handles@.dom() =~= Set::<Seq<char>>::empty()
                &&& action matches RunAction::Do { action: first, ended } && ended is None && {
                    &&& config.services.listing().len() == 0 ==> first is Wait
                    &&& config.services.listing().len() > 0
                        ==> crate::laws::client::starts_service(
                        first,
                        config.services.listing()[0].1,
                        config,
                        client.transport,
                    )
                }
            },
            Err(cause) => final(run).phase is Closed && action == RunAction::<T, H>::Return(
                Err(ClientError::CreateTransport(cause)),
            ),
        },
{
}

/// What happens to a running client is the client's to answer: a run does what a
/// call of the client's own step may give, with the client's state before and after.
pub proof fn run_hands_events_to_its_client<T, H>(
    run: &mut ClientRun<T, H>,
    event: ClientEvent<H>,
    action: RunAction<T, H>,
)
    requires
        call_ensures(ClientRun::<T, H>::step, (run, RunEvent::Client(event)), action),
    ensures
        old(run).phase matches RunPhase::Running(before) && final(run).phase matches RunPhase::Running(
            after,
        ) && action matches RunAction::Do { action: wanted, ended } && {
            &&& crate::client::client_step(before, event, after, wanted, ended)
            &&& after.config == before.config
            &&& after.transport == before.transport
            &&& wanted is Finish <==> event is Shutdown
        },
{
}

/// A run returns a success exactly when its client's channels are shut down, and
/// takes that answer when its client has finished.
pub proof fn run_succeeds_after_shutdown<T, H>(
    run: &mut ClientRun<T, H>,
    event: RunEvent<T, H>,
    action: RunAction<T, H>,
    next: &mut ClientRun<T, H>,
)
    requires
        call_ensures(ClientRun::<T, H>::step, (run, event), action),
        *old(next) == *final(run),
    ensures
        action matches RunAction::Return(Ok(_)) <==> event is ShutDown,
        action is Return <==> final(run).phase is Closed,
        action matches RunAction::Do { action: ClientAction::Finish(_), .. } ==> call_requires(
            ClientRun::<T, H>::step,
            (next, RunEvent::ShutDown),
        ),
{
}

} // verus!
