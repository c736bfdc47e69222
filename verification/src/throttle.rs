//! Admission control of the inference server.
//!
//! The server keeps one interval and the timestamp of the request it last
//! accepted. A request that comes less than the interval after that one is
//! dropped. Each time a handler finishes the interval moves by one step: up
//! while more than ten requests are running, down otherwise, and never out
//! of its bounds.

use vstd::prelude::*;

verus! {

/// One step of the interval, in milliseconds.
pub const INTERVAL_STEP: u128 = 100;

/// The longest interval, in milliseconds.
pub const INTERVAL_UPPER: u128 = 2000;

/// The shortest interval, in milliseconds.
pub const INTERVAL_LOWER: u128 = 0;

/// The interval of a server that has just started, in milliseconds.
pub const INITIAL_INTERVAL: u128 = 500;

/// The interval grows while more requests than this are running.
pub const BUSY_THRESHOLD: u64 = 10;

/// Counts the requests that were accepted and have not finished.
#[derive(Debug)]
pub struct ExecutionCounter {
    num_running: u64,
}

impl View for ExecutionCounter {
    type V = u64;

    closed spec fn view(&self) -> u64 {
        self.num_running
    }
}

impl ExecutionCounter {
    /// A counter with no request running.
    pub fn new() -> (counter: Self)
        ensures
            counter@ == 0,
    {
        Self { num_running: 0 }
    }

    /// One more request is running.
    pub fn mark_received(&mut self)
        requires
            old(self)@ < u64::MAX,
        ensures
            final(self)@ == old(self)@ + 1,
    {
        self.num_running += 1;
    }

    /// One request has finished. Every call is paired with an earlier call
    /// of `mark_received`.
    pub fn mark_finished(&mut self)
        requires
            old(self)@ > 0,
        ensures
            final(self)@ == old(self)@ - 1,
    {
        self.num_running -= 1;
    }

    /// The number of requests that are running.
    pub fn get_num_running(&self) -> (n: u64)
        ensures
            n == self@,
    {
        self.num_running
    }
}

/// The state of admission control as a mathematical value.
pub struct ThrottleView {
    pub interval_ms: u128,
    pub latest_ts: Option<u128>,
}

/// The interval and the timestamp of the request that was last accepted.
#[derive(Debug)]
pub struct Throttle {
    interval_ms: u128,
    latest_ts: Option<u128>,
}

/// An interval that the throttle can hold: a whole number of steps within
/// the bounds.
pub open spec fn valid_interval(interval_ms: u128) -> bool {
    INTERVAL_LOWER <= interval_ms <= INTERVAL_UPPER && interval_ms % INTERVAL_STEP == 0
}

/// Whether a request with the timestamp `t` is dropped.
pub open spec fn drop_spec(s: ThrottleView, t: u128) -> bool {
    s.latest_ts matches Some(latest) && t < latest + s.interval_ms
}

/// The state after a request with the timestamp `t` came in: an accepted
/// request becomes the latest one.
pub open spec fn admit_spec(s: ThrottleView, t: u128) -> ThrottleView {
    if drop_spec(s, t) {
        s
    } else {
        ThrottleView { latest_ts: Some(t), ..s }
    }
}

/// The interval after a handler finished with `num_running` requests still
/// running.
pub open spec fn next_interval(interval_ms: u128, num_running: u64) -> u128 {
    if num_running > BUSY_THRESHOLD {
        if interval_ms + INTERVAL_STEP < INTERVAL_UPPER {
            (interval_ms + INTERVAL_STEP) as u128
        } else {
            INTERVAL_UPPER
        }
    } else {
        if interval_ms < INTERVAL_STEP {
            INTERVAL_LOWER
        } else {
            (interval_ms - INTERVAL_STEP) as u128
        }
    }
}

impl View for Throttle {
    type V = ThrottleView;

    closed spec fn view(&self) -> ThrottleView {
        ThrottleView { interval_ms: self.interval_ms, latest_ts: self.latest_ts }
    }
}

impl Throttle {
    #[verifier::type_invariant]
    closed spec fn interval_is_valid(&self) -> bool {
        valid_interval(self.interval_ms)
    }

    /// The throttle of a server that has just started.
    pub fn new() -> (throttle: Self)
        ensures
            throttle@ == (ThrottleView { interval_ms: INITIAL_INTERVAL, latest_ts: None }),
    {
        Self { interval_ms: INITIAL_INTERVAL, latest_ts: None }
    }

    /// A throttle in a given state: none where the interval is not a whole
    /// number of steps within the bounds.
    pub fn with_state(interval_ms: u128, latest_ts: Option<u128>) -> (throttle: Option<Self>)
        ensures
            throttle is Some <==> valid_interval(interval_ms),
            throttle matches Some(t) ==> t@ == (ThrottleView { interval_ms, latest_ts }),
    {
        if interval_ms <= INTERVAL_UPPER && interval_ms % INTERVAL_STEP == 0 {
            Some(Self { interval_ms, latest_ts })
        } else {
            None
        }
    }

    /// The interval, in milliseconds.
    pub fn interval_ms(&self) -> (interval_ms: u128)
        ensures
            interval_ms == self@.interval_ms,
            valid_interval(interval_ms),
    {
        proof {
            use_type_invariant(self);
        }
        self.interval_ms
    }

    /// The timestamp of the request that was last accepted.
    pub fn latest_ts(&self) -> (latest_ts: Option<u128>)
        ensures
            latest_ts == self@.latest_ts,
    {
        self.latest_ts
    }
}

/// Decides whether the request with the timestamp `sender_timestamp` is
/// dropped, and remembers it as the latest one if it is not.
pub fn should_drop(throttle: &mut Throttle, sender_timestamp: u128) -> (will_drop: bool)
    ensures
        will_drop == drop_spec(old(throttle)@, sender_timestamp),
        final(throttle)@ == admit_spec(old(throttle)@, sender_timestamp),
        !will_drop ==> (old(throttle)@.latest_ts matches Some(latest) ==> sender_timestamp >= latest
            + old(throttle)@.interval_ms),
        !will_drop ==> final(throttle)@.latest_ts == Some(sender_timestamp),
        valid_interval(final(throttle)@.interval_ms),
{
    proof {
        use_type_invariant(&*throttle);
    }
    let will_drop = match throttle.latest_ts {
        Some(latest) => match latest.checked_add(throttle.interval_ms) {
            Some(limit) => sender_timestamp < limit,
            None => true,
        },
        None => false,
    };
    if !will_drop {
        throttle.latest_ts = Some(sender_timestamp);
    }
    will_drop
}

/// Moves the interval by one step after a handler finished: up while more
/// than ten requests are running, down otherwise, staying within the bounds.
pub fn adjust_time_interval(throttle: &mut Throttle, counter: &ExecutionCounter)
    ensures
        final(throttle)@.interval_ms == next_interval(old(throttle)@.interval_ms, counter@),
        final(throttle)@.latest_ts == old(throttle)@.latest_ts,
        valid_interval(old(throttle)@.interval_ms),
        valid_interval(final(throttle)@.interval_ms),
        final(throttle)@.interval_ms == old(throttle)@.interval_ms + INTERVAL_STEP
            || final(throttle)@.interval_ms == old(throttle)@.interval_ms - INTERVAL_STEP
            || final(throttle)@.interval_ms == old(throttle)@.interval_ms,
        final(throttle)@.interval_ms > old(throttle)@.interval_ms ==> counter@ > BUSY_THRESHOLD,
        final(throttle)@.interval_ms < old(throttle)@.interval_ms ==> counter@ <= BUSY_THRESHOLD,
{
    proof {
        use_type_invariant(&*throttle);
    }
    let current: u128 = throttle.interval_ms;
    if counter.get_num_running() > BUSY_THRESHOLD {
        if current + INTERVAL_STEP < INTERVAL_UPPER {
            throttle.interval_ms = current + INTERVAL_STEP;
        } else {
            throttle.interval_ms = INTERVAL_UPPER;
        }
    } else {
        if current < INTERVAL_STEP {
            throttle.interval_ms = INTERVAL_LOWER;
        } else {
            throttle.interval_ms = current - INTERVAL_STEP;
        }
    }
}

} // verus!
