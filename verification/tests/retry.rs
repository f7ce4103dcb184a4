use backoff::backoff::Backoff;
use std::time::Duration;
use tunnel_client::error::ClientError;
use tunnel_client::retry::{
    data_channel_backoff, retry_after, retry_plan, run_control_chan_backoff, Reconnect, Retry,
    RetryPlan, ShutdownPoll,
};

const SECOND: u128 = 1_000_000_000;

#[test]
fn backoff_of_a_data_channel() {
    let b = data_channel_backoff();
    assert_eq!(b.max_interval, Duration::from_millis(66));
    assert_eq!(b.max_elapsed_time, Some(Duration::from_secs(10)));
    assert_eq!(b.initial_interval, Duration::from_millis(66));
    assert_eq!(b.current_interval, Duration::from_millis(66));
    assert_eq!(b.randomization_factor, 0.5);
    assert_eq!(b.multiplier, 1.5);
}

#[test]
fn dialing_waits_100_ms_at_most() {
    let mut b = data_channel_backoff();
    for _ in 0..1000 {
        let pause = b.next_backoff().unwrap();
        assert!(pause <= Duration::from_millis(100));
        assert!(pause >= Duration::from_millis(33));
    }
}

#[test]
fn backoff_of_a_control_channel_never_ends() {
    let b = run_control_chan_backoff();
    assert_eq!(b.max_interval, Duration::from_secs(1));
    assert_eq!(b.max_elapsed_time, None);
    assert_eq!(b.initial_interval, Duration::from_millis(500));
    assert_eq!(b.current_interval, Duration::from_millis(500));
}

#[test]
fn plans() {
    let failed = Err(ClientError::HeartbeatTimeout);
    assert_eq!(retry_plan(&Ok(()), ShutdownPoll::Empty, 0), RetryPlan::Stop);
    assert_eq!(retry_plan(&failed, ShutdownPoll::Signalled, 9 * SECOND), RetryPlan::Stop);
    assert_eq!(retry_plan(&failed, ShutdownPoll::Closed, 0), RetryPlan::Stop);
    assert_eq!(retry_plan(&failed, ShutdownPoll::Empty, 3 * SECOND - 1), RetryPlan::RetryLater);
    assert_eq!(retry_plan(&failed, ShutdownPoll::Empty, 3 * SECOND), RetryPlan::RetryNow);
}

#[test]
fn pause_is_the_one_that_the_backoff_gave() {
    assert_eq!(retry_after(Some(123)), Retry::After(123));
}

#[test]
fn pauses_grow_and_never_run_out() {
    let failed = Err(ClientError::HeartbeatTimeout);
    for _ in 0..200 {
        let mut r = Reconnect::new();
        for interval in [SECOND / 2, SECOND * 3 / 4, SECOND, SECOND, SECOND] {
            match r.after_run(&failed, ShutdownPoll::Empty, 0) {
                Retry::After(pause) => {
                    assert!(interval / 2 <= pause);
                    assert!(pause <= interval + interval / 2 + 1);
                }
                _ => panic!("gave up"),
            }
        }
    }
}

#[test]
fn intervals_grow_by_half() {
    for (interval, next) in [
        (Duration::from_nanos(1), Duration::from_nanos(1)),
        (Duration::from_nanos(3), Duration::from_nanos(4)),
        (Duration::from_millis(500), Duration::from_millis(750)),
        (Duration::from_nanos(666_666_666), Duration::from_nanos(999_999_999)),
        (Duration::from_nanos(666_666_667), Duration::from_secs(1)),
        (Duration::from_millis(750), Duration::from_secs(1)),
        (Duration::from_secs(1), Duration::from_secs(1)),
        (Duration::from_secs(5), Duration::from_secs(1)),
    ] {
        let mut b = run_control_chan_backoff();
        b.current_interval = interval;
        assert!(b.next_backoff().is_some());
        assert_eq!(b.current_interval, next);
    }
}

#[test]
fn pauses_start_over_after_a_long_run() {
    let failed = Err(ClientError::HeartbeatTimeout);
    let mut r = Reconnect::new();
    for _ in 0..200 {
        for _ in 0..4 {
            r.after_run(&failed, ShutdownPoll::Empty, 0);
        }
        assert_eq!(r.after_run(&failed, ShutdownPoll::Empty, 3 * SECOND), Retry::Now);
        match r.after_run(&failed, ShutdownPoll::Empty, 0) {
            Retry::After(pause) => assert!(pause <= SECOND * 3 / 4 + 1),
            _ => panic!("gave up"),
        }
        r.after_run(&failed, ShutdownPoll::Empty, 4 * SECOND);
    }
}

#[test]
fn a_stopped_channel_is_left_alone() {
    let mut r = Reconnect::new();
    assert!(matches!(r.after_run(&Ok(()), ShutdownPoll::Empty, 0), Retry::Stop));
    let failed = Err(ClientError::ExpectTcp);
    assert!(matches!(r.after_run(&failed, ShutdownPoll::Closed, 0), Retry::Stop));
}
