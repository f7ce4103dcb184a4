//! When to try again.

use vstd::prelude::*;

use crate::error::ClientError;
use crate::outside;

verus! {

/// A control channel that ran for at least this long, in nanoseconds, is started
/// again at once.
pub const STABLE_RUN_NANOS: u128 = 3_000_000_000;

/// A data channel that cannot reach the server tries again after no more than this
/// many nanoseconds.
pub const MAX_DIAL_WAIT_NANOS: u128 = 100_000_000;

/// How often and for how long a data channel tries to reach the server: at least
/// every 100 milliseconds, and at most for 10 seconds. A pause is up to half longer
/// than the interval that it is drawn around, so the intervals are 66 milliseconds.
pub fn data_channel_backoff() -> (r: backoff::ExponentialBackoff)
    ensures
        outside::initial_interval(r) == 66_000_000,
        outside::current_interval(r) == 66_000_000,
        outside::interval_cap(r) == 66_000_000,
        outside::retry_limit(r) == Some(10_000_000_000nat),
        outside::has_default_factors(r),
        forall|pause: int| #[trigger]
            outside::drawn_around(outside::current_interval(r), pause) ==> pause
                <= MAX_DIAL_WAIT_NANOS,
{
    outside::exponential_backoff(66, 66, Some(10_000))
}

/// How often a control channel is started again: the interval grows from half a
/// second to one second, and the tries never end.
pub fn run_control_chan_backoff() -> (r: backoff::ExponentialBackoff)
    ensures
        outside::initial_interval(r) == 500_000_000,
        outside::current_interval(r) == 500_000_000,
        outside::interval_cap(r) == 1_000_000_000,
        outside::retry_limit(r) is None,
        outside::has_default_factors(r),
{
    outside::exponential_backoff(500, 1_000, None)
}

/// What the shutdown signal of a control channel shows, without waiting for it.
#[derive(Clone, Copy, Debug, PartialEq, Eq, Structural)]
pub enum ShutdownPoll {
    /// Nothing yet.
    Empty,
    /// The signal came.
    Signalled,
    /// Whoever could send it is gone.
    Closed,
}

/// What to do with a control channel whose run has ended.
#[derive(Clone, Copy, Debug, PartialEq, Eq, Structural)]
pub enum RetryPlan {
    Stop,
    RetryNow,
    RetryLater,
}

/// What to do with a control channel whose run has ended, with the pause before
/// the next run.
#[derive(Clone, Copy, Debug, PartialEq, Eq, Structural)]
pub enum Retry {
    Stop,
    Now,
    /// After so many nanoseconds.
    After(u128),
}

/// A run that ended well is the last one, and so is one that failed after the
/// shutdown signal or after its sender went. Any other failure is retried: at
/// once where the run was a long one, else after a pause.
pub open spec fn plan_after(
    outcome: Result<(), ClientError>,
    shutdown: ShutdownPoll,
    ran_for_nanos: u128,
) -> RetryPlan {
    if outcome is Ok || shutdown != ShutdownPoll::Empty {
        RetryPlan::Stop
    } else if ran_for_nanos >= STABLE_RUN_NANOS {
        RetryPlan::RetryNow
    } else {
        RetryPlan::RetryLater
    }
}

pub fn retry_plan(
    outcome: &Result<(), ClientError>,
    shutdown: ShutdownPoll,
    ran_for_nanos: u128,
) -> (r: RetryPlan)
    ensures
        r == plan_after(*outcome, shutdown, ran_for_nanos),
{
    match outcome {
        Ok(_) => RetryPlan::Stop,
        Err(_) => {
            if shutdown != ShutdownPoll::Empty {
                RetryPlan::Stop
            } else if ran_for_nanos >= STABLE_RUN_NANOS {
                RetryPlan::RetryNow
            } else {
                RetryPlan::RetryLater
            }
        },
    }
}

/// The pause before the next run is the one that the backoff gave. A backoff
/// that has run out gives none, and is left out.
pub fn retry_after(pause: Option<u128>) -> (r: Retry)
    requires
        pause is Some,
    ensures
        r == Retry::After(pause->0),
{
    match pause {
        Some(pause) => Retry::After(pause),
        None => vstd::pervasive::unreached(),
    }
}

/// From `before` to `after` a control channel waits for `pause` nanoseconds: this is
/// what the backoff gave, drawn around the interval, which then grows to at most a
/// second.
pub open spec fn waits(before: Reconnect, after: Reconnect, pause: u128) -> bool {
    &&& outside::may_pause(before.policy(), pause)
    &&& outside::drawn_around(before.interval(), pause as int)
    &&& after.interval() == outside::grown_interval(before.interval(), 1_000_000_000)
}

/// Decides how a control channel is kept running.
pub struct Reconnect {
    backoff: backoff::ExponentialBackoff,
}

impl Reconnect {
    /// The backoff that gives the pauses.
    pub closed spec fn policy(self) -> backoff::ExponentialBackoff {
        self.backoff
    }

    /// What the next pause is drawn around, in nanoseconds.
    pub open spec fn interval(self) -> nat {
        outside::current_interval(self.policy())
    }

    /// The backoff is one for control channels: it never runs out, and its interval
    /// stays between half a second and a second.
    #[verifier::type_invariant]
    spec fn endless(self) -> bool {
        &&& outside::retry_limit(self.backoff) is None
        &&& outside::has_default_factors(self.backoff)
        &&& outside::initial_interval(self.backoff) == 500_000_000
        &&& outside::interval_cap(self.backoff) == 1_000_000_000
        &&& 500_000_000 <= outside::current_interval(self.backoff) <= 1_000_000_000
    }

    pub fn new() -> (r: Reconnect)
        ensures
            r.interval() == 500_000_000,
    {
        Reconnect { backoff: run_control_chan_backoff() }
    }

    /// Takes the outcome of a run and how long it took. A failed run is always
    /// followed by another one, unless the channel is to shut down. After a short
    /// run there is a pause, and the next one is drawn around a longer interval;
    /// after a long run the intervals start over. Which pause it is, is up to
    /// the backoff.
    pub fn after_run(
        &mut self,
        outcome: &Result<(), ClientError>,
        shutdown: ShutdownPoll,
        ran_for_nanos: u128,
    ) -> (r: Retry)
        ensures
            500_000_000 <= old(self).interval() <= 1_000_000_000,
            500_000_000 <= final(self).interval() <= 1_000_000_000,
            match plan_after(*outcome, shutdown, ran_for_nanos) {
                RetryPlan::Stop => r == Retry::Stop && *final(self) == *old(self),
                RetryPlan::RetryNow => r == Retry::Now && final(self).interval() == 500_000_000,
                RetryPlan::RetryLater => r matches Retry::After(pause) && waits(
                    *old(self),
                    *final(self),
                    pause,
                ),
            },
    {
        proof {
            use_type_invariant(&*self);
        }
        match retry_plan(outcome, shutdown, ran_for_nanos) {
            RetryPlan::Stop => Retry::Stop,
            RetryPlan::RetryNow => {
                let mut backoff = run_control_chan_backoff();
                std::mem::swap(&mut backoff, &mut self.backoff);
                outside::reset_backoff(&mut backoff);
                self.backoff = backoff;
                Retry::Now
            },
            RetryPlan::RetryLater => {
                let mut backoff = run_control_chan_backoff();
                std::mem::swap(&mut backoff, &mut self.backoff);
                let pause = outside::next_backoff(&mut backoff);
                self.backoff = backoff;
                retry_after(pause)
            },
        }
    }
}

// ---- laws ----

/// The interval of a backoff after so many pauses in a row, in nanoseconds.
pub open spec fn interval_after(initial: nat, cap: nat, pauses: nat) -> nat
    decreases pauses,
{
    if pauses == 0 {
        initial
    } else {
        outside::grown_interval(interval_after(initial, cap, (pauses - 1) as nat), cap)
    }
}

/// The intervals of a backoff only grow, and never beyond its cap.
pub proof fn intervals_grow_to_the_cap(initial: nat, cap: nat, pauses: nat)
    requires
        initial <= cap,
    ensures
        initial <= interval_after(initial, cap, pauses),
        interval_after(initial, cap, pauses) <= interval_after(initial, cap, pauses + 1),
        interval_after(initial, cap, pauses + 1) <= cap,
    decreases pauses,
{
    if pauses > 0 {
        intervals_grow_to_the_cap(initial, cap, (pauses - 1) as nat);
    }
}

/// However often a data channel dials, and whatever is drawn, the next try comes
/// within 100 milliseconds.
pub proof fn dialing_never_waits_long(tries: nat, pause: int)
    requires
        outside::drawn_around(interval_after(66_000_000, 66_000_000, tries), pause),
    ensures
        pause <= MAX_DIAL_WAIT_NANOS,
{
    intervals_grow_to_the_cap(66_000_000, 66_000_000, tries);
}

/// Short runs of a control channel in a row are followed by longer and longer
/// pauses: they are drawn around half a second at first, then around three quarters
/// of one, then around a second for good.
pub proof fn short_runs_wait_longer(states: Seq<Reconnect>, pauses: Seq<u128>, n: int)
    requires
        states.len() == pauses.len() + 1,
        states[0].interval() == 500_000_000,
        forall|i: int|
            0 <= i < pauses.len() ==> waits(states[i], states[i + 1], #[trigger] pauses[i]),
        0 <= n < pauses.len(),
    ensures
        states[n].interval() == interval_after(500_000_000, 1_000_000_000, n as nat),
        outside::drawn_around(
            if n == 0 {
                500_000_000nat
            } else if n == 1 {
                750_000_000nat
            } else {
                1_000_000_000nat
            },
            pauses[n] as int,
        ),
    decreases n,
{
    assert(waits(states[n], states[n + 1], pauses[n]));
    if n > 0 {
        short_runs_wait_longer(states, pauses, n - 1);
        assert(waits(states[n - 1], states[n], pauses[n - 1]));
    }
    if n > 1 {
        lemma_second_for_good(n as nat);
    }
}

proof fn lemma_second_for_good(pauses: nat)
    requires
        pauses >= 2,
    ensures
        interval_after(500_000_000, 1_000_000_000, pauses) == 1_000_000_000,
    decreases pauses,
{
    reveal_with_fuel(interval_after, 3);
    if pauses > 2 {
        lemma_second_for_good((pauses - 1) as nat);
    }
}

/// A pause before a control channel's next run lasts a quarter of a second at
/// least, and a second and a half and a nanosecond at most.
pub proof fn pauses_are_bounded(r: Reconnect, pause: int)
    requires
        500_000_000 <= r.interval() <= 1_000_000_000,
        outside::drawn_around(r.interval(), pause),
    ensures
        250_000_000 <= pause <= 1_500_000_001,
{
}

} // verus!
