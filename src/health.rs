//! Circuit breaker that gates calls to a possibly degraded remote endpoint.
use std::time::Duration;
use std::time::SystemTime;
use vstd::prelude::*;

verus! {

#[verifier::external_type_specification]
#[verifier::external_body]
pub struct ExSystemTime(SystemTime);

/// Relies on `SystemTime::now`: reads the wall clock; nothing is known of the value.
#[verifier::external_body]
fn system_now() -> SystemTime {
    SystemTime::now()
}

/// Relies on `SystemTime::duration_since(UNIX_EPOCH)`: the time elapsed since the
/// Unix epoch, or `None` when the clock reads a time before it.
#[verifier::external_body]
fn since_unix_epoch(t: &SystemTime) -> Option<Duration> {
    t.duration_since(std::time::UNIX_EPOCH).ok()
}

/// The whole milliseconds in a duration, as `Duration::as_millis` counts them.
pub uninterp spec fn millis_of(d: Duration) -> u128;

/// Relies on `Duration::as_millis`: the whole milliseconds in the duration
/// (`Duration::from_secs(1)` holds 1000).
#[verifier::external_body]
fn duration_millis(d: &Duration) -> (r: u128)
    ensures
        r == millis_of(*d),
{
    d.as_millis()
}

/// The clock could not be read as milliseconds since the Unix epoch.
#[derive(Debug, Clone, Copy, PartialEq, Eq)]
pub enum ClockError {
    BeforeUnixEpoch,
}

/// Reads the wall clock as whole milliseconds since the Unix epoch
/// (truncated to 64 bits, as the tracker stores it).
fn now_millis() -> Result<u64, ClockError> {
    let now = system_now();
    match since_unix_epoch(&now) {
        Some(d) => Ok(duration_millis(&d) as u64),
        None => Err(ClockError::BeforeUnixEpoch),
    }
}

pub struct CasSuccessTrackerConfig {
    /// Number of consecutive failures before the endpoint is considered unhealthy.
    pub max_failures: usize,
    /// How long to wait before allowing requests again after the threshold is
    /// reached; grows exponentially (up to 16 times) on repeated trips.
    pub downtime_on_failure: Duration,
}

pub struct CasSuccessTracker {
    pub config: CasSuccessTrackerConfig,
    /// Number of failures since the last success (or since the last permit
    /// given after a downtime).
    pub failures_since_last_success: usize,
    /// Time of the last failure, in milliseconds since the Unix epoch.
    pub last_failure_ms: u64,
    pub downtime_on_failure_ms: u64,
    /// Number of times a downtime has been lifted since the last success;
    /// drives the exponential backoff.
    pub number_of_downtimes: usize,
}

/// The backoff factor after `lifts` lifted downtimes: `min(2^lifts, 16)`.
pub open spec fn backoff_coefficient(lifts: nat) -> nat {
    if lifts == 0 {
        1
    } else if lifts == 1 {
        2
    } else if lifts == 2 {
        4
    } else if lifts == 3 {
        8
    } else {
        16
    }
}

/// `x + 1`, stopping at the largest `usize`.
pub open spec fn saturating_inc(x: usize) -> usize {
    if x < usize::MAX {
        (x + 1) as usize
    } else {
        x
    }
}

impl CasSuccessTracker {
    /// The downtime that applies now, in milliseconds.
    pub open spec fn effective_backoff_ms(&self) -> int {
        self.downtime_on_failure_ms * backoff_coefficient(self.number_of_downtimes as nat)
    }

    /// Whether the failure threshold has been reached.
    pub open spec fn tripped(&self) -> bool {
        self.failures_since_last_success >= self.config.max_failures
    }

    /// Whether a request is permitted at time `now_ms`.
    pub open spec fn permits_at(&self, now_ms: u64) -> bool {
        !self.tripped() || now_ms - self.last_failure_ms >= self.effective_backoff_ms()
    }

    /// Whether the two trackers share their configuration.
    pub open spec fn same_config(&self, other: &Self) -> bool {
        &&& self.config.max_failures == other.config.max_failures
        &&& self.config.downtime_on_failure == other.config.downtime_on_failure
        &&& self.downtime_on_failure_ms == other.downtime_on_failure_ms
    }

    pub fn new(config: CasSuccessTrackerConfig) -> (r: Self)
        ensures
            r.config == config,
            r.failures_since_last_success == 0,
            r.last_failure_ms == 0,
            r.number_of_downtimes == 0,
            r.downtime_on_failure_ms == millis_of(config.downtime_on_failure) as u64,
    {
        let downtime_on_failure_ms = duration_millis(&config.downtime_on_failure) as u64;
        CasSuccessTracker {
            config,
            failures_since_last_success: 0,
            last_failure_ms: 0,
            downtime_on_failure_ms,
            number_of_downtimes: 0,
        }
    }

    /// Records a successful call: the failure run and the backoff both reset.
    pub fn record_success(&mut self)
        ensures
            final(self).same_config(old(self)),
            final(self).failures_since_last_success == 0,
            final(self).number_of_downtimes == 0,
            final(self).last_failure_ms == old(self).last_failure_ms,
    {
        self.failures_since_last_success = 0;
        self.number_of_downtimes = 0;
    }

    /// Records a failed call at time `now_ms`.
    pub fn record_failure_at(&mut self, now_ms: u64)
        ensures
            final(self).same_config(old(self)),
            final(self).failures_since_last_success == saturating_inc(
                old(self).failures_since_last_success,
            ),
            final(self).last_failure_ms == now_ms,
            final(self).number_of_downtimes == old(self).number_of_downtimes,
    {
        if self.failures_since_last_success < usize::MAX {
            self.failures_since_last_success = self.failures_since_last_success + 1;
        }
        self.last_failure_ms = now_ms;
    }

    /// Records a failed call, given the clock's reading in milliseconds since
    /// the Unix epoch (`None` when the clock could not be read): the failure
    /// is counted, and its time recorded when it is known.
    pub fn record_failure_reading(&mut self, now_ms: Option<u64>)
        ensures
            final(self).same_config(old(self)),
            final(self).failures_since_last_success == saturating_inc(
                old(self).failures_since_last_success,
            ),
            final(self).number_of_downtimes == old(self).number_of_downtimes,
            final(self).last_failure_ms == match now_ms {
                Some(t) => t,
                None => old(self).last_failure_ms,
            },
    {
        match now_ms {
            Some(t) => self.record_failure_at(t),
            None => {
                if self.failures_since_last_success < usize::MAX {
                    self.failures_since_last_success = self.failures_since_last_success + 1;
                }
            },
        }
    }

    /// Records a failed call now. It never fails: when the clock reads a time
    /// before the Unix epoch the failure is still counted and the time of the
    /// last failure is left as it was.
    pub fn record_failure(&mut self) -> (r: Result<(), ClockError>)
        ensures
            r == Ok::<(), ClockError>(()),
            final(self).same_config(old(self)),
            final(self).failures_since_last_success == saturating_inc(
                old(self).failures_since_last_success,
            ),
            final(self).number_of_downtimes == old(self).number_of_downtimes,
    {
        let reading = match now_millis() {
            Ok(t) => Some(t),
            Err(_) => None,
        };
        self.record_failure_reading(reading);
        Ok(())
    }

    /// Decides whether a request may go out at time `now_ms`. Below the
    /// failure threshold it always may. At or above it, it may once the
    /// effective backoff has elapsed since the last failure; that permit lifts
    /// the downtime (the backoff grows) and gives a fresh failure budget.
    pub fn allow_request_at(&mut self, now_ms: u64) -> (r: bool)
        ensures
            r == old(self).permits_at(now_ms),
            final(self).same_config(old(self)),
            final(self).last_failure_ms == old(self).last_failure_ms,
            old(self).tripped() && r ==> {
                &&& final(self).failures_since_last_success == 0
                &&& final(self).number_of_downtimes == saturating_inc(
                    old(self).number_of_downtimes,
                )
            },
            !(old(self).tripped() && r) ==> {
                &&& final(self).failures_since_last_success
                    == old(self).failures_since_last_success
                &&& final(self).number_of_downtimes == old(self).number_of_downtimes
            },
    {
        if self.failures_since_last_success < self.config.max_failures {
            return true;
        }
        let coefficient: u64 = if self.number_of_downtimes >= 4 {
            16
        } else {
            1u64 << (self.number_of_downtimes as u64)
        };
        assert(coefficient == backoff_coefficient(self.number_of_downtimes as nat)) by {
            if self.number_of_downtimes < 4 {
                assert(1u64 << 0u64 == 1) by (bit_vector);
                assert(1u64 << 1u64 == 2) by (bit_vector);
                assert(1u64 << 2u64 == 4) by (bit_vector);
                assert(1u64 << 3u64 == 8) by (bit_vector);
            }
        }
        let elapsed_enough = if now_ms < self.last_failure_ms {
            false
        } else {
            match self.downtime_on_failure_ms.checked_mul(coefficient) {
                Some(backoff) => now_ms - self.last_failure_ms >= backoff,
                None => false,
            }
        };
        if elapsed_enough {
            if self.number_of_downtimes < usize::MAX {
                self.number_of_downtimes = self.number_of_downtimes + 1;
            }
            self.failures_since_last_success = 0;
            true
        } else {
            false
        }
    }

    /// Decides whether a request may go out, given the clock's reading in
    /// milliseconds since the Unix epoch (`None` when the clock could not be
    /// read). Below the threshold the reading is not needed; at or above it
    /// an unknown time denies the request.
    pub fn allow_request_reading(&mut self, now_ms: Option<u64>) -> (r: bool)
        ensures
            r == match now_ms {
                Some(t) => old(self).permits_at(t),
                None => !old(self).tripped(),
            },
            final(self).same_config(old(self)),
            final(self).last_failure_ms == old(self).last_failure_ms,
            old(self).tripped() && r ==> {
                &&& final(self).failures_since_last_success == 0
                &&& final(self).number_of_downtimes == saturating_inc(
                    old(self).number_of_downtimes,
                )
            },
            !(old(self).tripped() && r) ==> *final(self) == *old(self),
    {
        if self.failures_since_last_success < self.config.max_failures {
            return true;
        }
        match now_ms {
            Some(t) => self.allow_request_at(t),
            None => false,
        }
    }

    /// Decides whether a request may go out now (see `allow_request_at`).
    /// It never fails. The clock is read only when the failure threshold has
    /// been reached; a clock that reads a time before the Unix epoch denies
    /// the request.
    pub fn allow_request(&mut self) -> (r: Result<bool, ClockError>)
        ensures
            r is Ok,
            final(self).same_config(old(self)),
            final(self).last_failure_ms == old(self).last_failure_ms,
            !old(self).tripped() ==> r == Ok::<bool, ClockError>(true) && *final(self) == *old(
                self,
            ),
            r == Ok::<bool, ClockError>(false) ==> *final(self) == *old(self),
            r == Ok::<bool, ClockError>(true) && old(self).tripped() ==> {
                &&& final(self).failures_since_last_success == 0
                &&& final(self).number_of_downtimes == saturating_inc(
                    old(self).number_of_downtimes,
                )
            },
    {
        if self.failures_since_last_success < self.config.max_failures {
            return Ok(true);
        }
        let reading = match now_millis() {
            Ok(t) => Some(t),
            Err(_) => None,
        };
        Ok(self.allow_request_reading(reading))
    }
}

} // verus!
