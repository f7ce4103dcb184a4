//! Laws of trying again.

use vstd::prelude::*;

use crate::error::ClientError;
use crate::outside;
use crate::retry::{
    data_channel_backoff, retry_after, retry_plan, run_control_chan_backoff, Reconnect, Retry,
    RetryPlan, ShutdownPoll,
};

verus! {

/// A control channel is given up exactly when its run ended well or it is to shut
/// down. Any other failure is retried: at once after three seconds or more, else
/// after a pause.
pub proof fn plan_gives_up_only_when_done(
    outcome: Result<(), ClientError>,
    shutdown: ShutdownPoll,
    ran_for_nanos: u128,
    r: RetryPlan,
)
    requires
        call_ensures(retry_plan, (&outcome, shutdown, ran_for_nanos), r),
    ensures
        r is Stop <==> (outcome is Ok || shutdown is Signalled || shutdown is Closed),
        r is RetryNow <==> (outcome is Err && shutdown is Empty && ran_for_nanos >= 3_000_000_000),
        r is RetryLater <==> (outcome is Err && shutdown is Empty && ran_for_nanos < 3_000_000_000),
{
}

/// Why a run failed does not matter to the plan, and a longer run is never
/// followed by a longer wait.
pub proof fn plan_goes_by_length_alone(
    shutdown: ShutdownPoll,
    error: ClientError,
    short: u128,
    after_short: RetryPlan,
    other_error: ClientError,
    long: u128,
    after_long: RetryPlan,
)
    requires
        call_ensures(retry_plan, (&Err(error), shutdown, short), after_short),
        call_ensures(retry_plan, (&Err(other_error), shutdown, long), after_long),
        short <= long,
    ensures
        after_short is Stop <==> after_long is Stop,
        after_short is RetryNow ==> after_long is RetryNow,
        short == long ==> after_short == after_long,
{
}

/// The same holds of what is done after a run. Only a pause moves the interval on:
/// it grows by half, but not beyond a second; the pause itself is one that the
/// backoff gave, within half the interval on either side. A run of three seconds
/// sets the interval back to half a second.
pub proof fn channel_is_kept_running(
    reconnect: &mut Reconnect,
    outcome: Result<(), ClientError>,
    shutdown: ShutdownPoll,
    ran_for_nanos: u128,
    r: Retry,
)
    requires
        call_ensures(Reconnect::after_run, (reconnect, &outcome, shutdown, ran_for_nanos), r),
    ensures
        r is Stop <==> (outcome is Ok || shutdown is Signalled || shutdown is Closed),
        r is Now <==> (outcome is Err && shutdown is Empty && ran_for_nanos >= 3_000_000_000),
        r is After <==> (outcome is Err && shutdown is Empty && ran_for_nanos < 3_000_000_000),
        r is Stop ==> *final(reconnect) == *old(reconnect),
        r is Now ==> final(reconnect).interval() == 500_000_000,
        r matches Retry::After(pause) ==> {
            let (before, after) = (old(reconnect).interval(), final(reconnect).interval());
            &&& outside::may_pause(old(reconnect).policy(), pause)
            &&& before - 1 <= 2 * pause <= 3 * before + 2
            &&& before <= after <= 1_000_000_000
            &&& 2 * after <= 3 * before
            &&& after < 1_000_000_000 ==> 2 * after + 1 >= 3 * before
        },
{
}

/// A new channel starts with an interval of half a second.
pub proof fn first_interval_is_half_a_second(r: Reconnect)
    requires
        call_ensures(Reconnect::new, (), r),
    ensures
        r.interval() == 500_000_000,
{
}

/// The pause that was drawn is the pause that is made.
pub proof fn drawn_pause_is_kept(pause: u128, r: Retry)
    requires
        call_ensures(retry_after, (Some(pause),), r),
    ensures
        r == Retry::After(pause),
{
}

/// A data channel gives up dialing after ten seconds, and no pause that can be
/// drawn while it dials is longer than 100 milliseconds.
pub proof fn dialing_is_quick_and_ends(r: backoff::ExponentialBackoff, interval: nat, pause: int)
    requires
        call_ensures(data_channel_backoff, (), r),
        interval <= outside::interval_cap(r),
        outside::drawn_around(interval, pause),
    ensures
        outside::retry_limit(r) == Some(10_000_000_000nat),
        0 < outside::initial_interval(r) <= outside::interval_cap(r),
        outside::current_interval(r) == outside::initial_interval(r),
        outside::has_default_factors(r),
        0 <= pause <= 100_000_000,
{
}

/// A control channel never stops trying, and starts with half a second.
pub proof fn reconnecting_never_ends(r: backoff::ExponentialBackoff)
    requires
        call_ensures(run_control_chan_backoff, (), r),
    ensures
        outside::retry_limit(r) is None,
        outside::initial_interval(r) == 500_000_000,
        outside::current_interval(r) == 500_000_000,
        outside::interval_cap(r) == 1_000_000_000,
        outside::has_default_factors(r),
{
}

/// A run can end in any way and at any time: its outcome is always taken.
pub proof fn every_outcome_is_taken(
    reconnect: &mut Reconnect,
    outcome: Result<(), ClientError>,
    shutdown: ShutdownPoll,
    ran_for_nanos: u128,
)
    ensures
        call_requires(Reconnect::after_run, (reconnect, &outcome, shutdown, ran_for_nanos)),
        call_requires(retry_plan, (&outcome, shutdown, ran_for_nanos)),
{
}

} // verus!
