//! The endpoint bootstrapper: waiting until a bound endpoint can be
//! reached.
//!
//! The caller binds the endpoint and asks it whether it has a relay. The
//! poll says how long to sleep before asking again, and gives up once the
//! time allowed has gone by.

use vstd::prelude::*;

verus! {

/// The time between two looks at the endpoint, in milliseconds.
pub const POLL_INTERVAL_MS: u64 = 50;

/// The time allowed for an endpoint to become reachable, in milliseconds.
pub const READINESS_TIMEOUT_MS: u64 = 30_000;

/// Why an endpoint is not usable.
#[derive(Debug, Clone, Copy, PartialEq, Eq, Structural)]
pub enum ConnectivityError {
    /// The identity could not be bound to the transport.
    BindFailure,
    /// The endpoint did not become reachable in the time allowed.
    ReadinessTimeout,
}

/// What the caller does after a look at the endpoint.
#[derive(Debug, Clone, Copy, PartialEq, Eq, Structural)]
pub enum PollAction {
    /// The endpoint is reachable: go on.
    Ready,
    /// Sleep for this many milliseconds, then look again.
    Sleep { millis: u64 },
}

/// A wait for readiness with a bound on its length.
#[derive(Debug, Clone, Copy, PartialEq, Eq, Structural)]
pub struct ReadinessPoll {
    /// The time between two looks, in milliseconds; never zero.
    pub interval_ms: u64,
    /// The time allowed in all, in milliseconds.
    pub timeout_ms: u64,
    /// The time slept so far, in milliseconds.
    pub waited_ms: u64,
}

impl ReadinessPoll {
    /// The interval is not zero, and no more was slept than is allowed.
    pub open spec fn wf(self) -> bool {
        self.interval_ms > 0 && self.waited_ms <= self.timeout_ms
    }

    /// The time that may still be slept, in milliseconds.
    pub open spec fn remaining(self) -> nat {
        (self.timeout_ms - self.waited_ms) as nat
    }

    /// The outcome of a look that found the endpoint `ready` or not: the
    /// poll afterwards, and the action or the error.
    pub open spec fn look(self, ready: bool) -> (
        ReadinessPoll,
        Result<PollAction, ConnectivityError>,
    ) {
        if ready {
            (self, Ok(PollAction::Ready))
        } else if self.waited_ms >= self.timeout_ms {
            (self, Err(ConnectivityError::ReadinessTimeout))
        } else {
            let millis = if self.interval_ms <= self.timeout_ms - self.waited_ms {
                self.interval_ms
            } else {
                (self.timeout_ms - self.waited_ms) as u64
            };
            (
                ReadinessPoll { waited_ms: (self.waited_ms + millis) as u64, ..self },
                Ok(PollAction::Sleep { millis }),
            )
        }
    }

    /// A poll that looks every `interval_ms` milliseconds and gives up after
    /// `timeout_ms` milliseconds. An interval of zero is raised to one.
    pub fn new(interval_ms: u64, timeout_ms: u64) -> (poll: ReadinessPoll)
        ensures
            poll.wf(),
            poll.interval_ms == if interval_ms == 0 {
                1
            } else {
                interval_ms
            },
            poll.timeout_ms == timeout_ms,
            poll.waited_ms == 0,
    {
        ReadinessPoll {
            interval_ms: if interval_ms == 0 {
                1
            } else {
                interval_ms
            },
            timeout_ms,
            waited_ms: 0,
        }
    }

    /// Takes a look at the endpoint into account. A ready endpoint ends the
    /// wait. One that is not ready is waited for, in steps of the interval,
    /// until the time allowed is used up; then the wait fails.
    pub fn await_ready(&mut self, ready: bool) -> (outcome: Result<PollAction, ConnectivityError>)
        requires
            old(self).wf(),
        ensures
            final(self).wf(),
            (*final(self), outcome) == old(self).look(ready),
    {
        if ready {
            Ok(PollAction::Ready)
        } else if self.waited_ms >= self.timeout_ms {
            Err(ConnectivityError::ReadinessTimeout)
        } else {
            let left = self.timeout_ms - self.waited_ms;
            let millis = if self.interval_ms <= left {
                self.interval_ms
            } else {
                left
            };
            self.waited_ms = self.waited_ms + millis;
            Ok(PollAction::Sleep { millis })
        }
    }
}

/// The wait never hangs: each sleep is a real one and uses up some of the
/// time allowed, and once none is left an endpoint that is still not ready
/// makes the wait fail.
pub proof fn lemma_wait_is_bounded(poll: ReadinessPoll)
    requires
        poll.wf(),
    ensures
        poll.look(false).0.wf(),
        poll.look(false).1 matches Ok(PollAction::Sleep { millis }) ==> millis > 0
            && poll.look(false).0.remaining() + millis == poll.remaining(),
        poll.remaining() == 0 ==> poll.look(false).1 == Err::<PollAction, ConnectivityError>(
            ConnectivityError::ReadinessTimeout,
        ),
        !(poll.look(false).1 matches Ok(PollAction::Ready)),
{
}

/// The number of sleeps in a wait is bounded by the time allowed: after
/// `sleeps` looks that each called for a sleep, at least that many
/// milliseconds of the allowed time are gone.
pub proof fn lemma_sleeps_use_up_time(poll: ReadinessPoll, sleeps: nat)
    requires
        poll.wf(),
        never_ready(poll, sleeps).1,
    ensures
        never_ready(poll, sleeps).0.wf(),
        never_ready(poll, sleeps).0.remaining() + sleeps <= poll.remaining(),
    decreases sleeps,
{
    if sleeps > 0 {
        lemma_sleeps_use_up_time(poll, (sleeps - 1) as nat);
        lemma_wait_is_bounded(never_ready(poll, (sleeps - 1) as nat).0);
    }
}

/// The poll after `looks` looks at an endpoint that is never ready, and
/// whether each of them called for a sleep.
pub open spec fn never_ready(poll: ReadinessPoll, looks: nat) -> (ReadinessPoll, bool)
    decreases looks,
{
    if looks == 0 {
        (poll, true)
    } else {
        let before = never_ready(poll, (looks - 1) as nat);
        (before.0.look(false).0, before.1 && before.0.look(false).1 is Ok)
    }
}

} // verus!
