//! Pacing of reconnect attempts: an exponential delay with an upper bound.
use vstd::arithmetic::power2::*;
use vstd::prelude::*;

verus! {

/// The delay before attempt `attempt` (counted from one): `base` doubled with each
/// further attempt, at most `max`.
pub open spec fn backoff_delay(base: u64, max: u64, attempt: int) -> int {
    let full = base * pow2((attempt - 1) as nat);
    if full <= max {
        full
    } else {
        max as int
    }
}

/// Counts the attempts since the last reset and gives each its delay in
/// milliseconds.
#[derive(Debug)]
pub struct ReconnectBackoff {
    base: u64,
    max: u64,
    attempt: u32,
    next: u64,
}

/// What a backoff does: the two delays it was made with and the attempts so far.
pub struct BackoffModel {
    pub base: u64,
    pub max: u64,
    pub attempt: u32,
}

impl BackoffModel {
    /// No attempt has been scheduled since.
    pub open spec fn reset(self) -> BackoffModel {
        BackoffModel { attempt: 0, ..self }
    }

    /// One more attempt has been scheduled.
    pub open spec fn scheduled(self) -> BackoffModel {
        BackoffModel {
            attempt: if self.attempt < u32::MAX {
                (self.attempt + 1) as u32
            } else {
                self.attempt
            },
            ..self
        }
    }

    /// The delay of the latest attempt, in milliseconds.
    pub open spec fn delay(self) -> int {
        backoff_delay(self.base, self.max, self.attempt as int)
    }
}

impl View for ReconnectBackoff {
    type V = BackoffModel;

    closed spec fn view(&self) -> BackoffModel {
        BackoffModel { base: self.base, max: self.max, attempt: self.attempt }
    }
}

proof fn delay_doubles(base: u64, max: u64, attempt: int)
    requires
        attempt >= 1,
    ensures
        backoff_delay(base, max, attempt + 1) == if 2 * backoff_delay(base, max, attempt) <= max {
            2 * backoff_delay(base, max, attempt)
        } else {
            max as int
        },
        0 <= backoff_delay(base, max, attempt) <= max,
{
    let k = (attempt - 1) as nat;
    lemma_pow2_unfold((k + 1) as nat);
    lemma_pow2_pos(k);
    assert(base * (2 * pow2(k)) == 2 * (base * pow2(k))) by (nonlinear_arith);
    assert(base * pow2(k) >= 0) by (nonlinear_arith)
        requires
            pow2(k) > 0,
    ;
}

proof fn first_delay(base: u64, max: u64)
    ensures
        backoff_delay(base, max, 1) == if base <= max {
            base
        } else {
            max
        },
{
    lemma2_to64();
    assert(base * pow2(0) == base) by (nonlinear_arith)
        requires
            pow2(0) == 1,
    ;
}

/// Every delay lies between nothing and the bound.
pub proof fn delays_are_bounded(base: u64, max: u64, attempt: int)
    requires
        attempt >= 1,
    ensures
        0 <= backoff_delay(base, max, attempt) <= max,
{
    delay_doubles(base, max, attempt);
}

/// Delays never shrink from one attempt to the next and never exceed the bound.
pub proof fn delays_grow_to_the_bound(base: u64, max: u64, attempt: int)
    requires
        attempt >= 1,
    ensures
        backoff_delay(base, max, attempt) <= backoff_delay(base, max, attempt + 1) <= max,
        base <= max ==> backoff_delay(base, max, 1) == base,
{
    delay_doubles(base, max, attempt);
    delay_doubles(base, max, attempt + 1);
    first_delay(base, max);
}

/// The first delay is the base, each further one is twice the one before, and the bound
/// stands in for all that would exceed it.
pub proof fn delays_double(base: u64, max: u64, attempt: int)
    requires
        attempt >= 1,
    ensures
        backoff_delay(base, max, 1) == if base <= max {
            base
        } else {
            max
        },
        backoff_delay(base, max, attempt + 1) == if 2 * backoff_delay(base, max, attempt) <= max {
            2 * backoff_delay(base, max, attempt)
        } else {
            max as int
        },
{
    first_delay(base, max);
    delay_doubles(base, max, attempt);
}

/// With a base of two seconds and a bound of thirty the delays are two, four, eight,
/// sixteen and from then on thirty seconds, and every attempt is one more than the last.
pub proof fn first_delays(backoff: BackoffModel)
    requires
        backoff.base == 2_000,
        backoff.max == 30_000,
    ensures
        ({
            let next = backoff.scheduled();
            &&& next.base == backoff.base && next.max == backoff.max
            &&& backoff.attempt < 0xffff_ffff ==> next.attempt == backoff.attempt + 1
            &&& backoff.attempt == 0xffff_ffff ==> next.attempt == backoff.attempt
            &&& next.delay() == if backoff.attempt == 0 {
                2_000int
            } else if backoff.attempt == 1 {
                4_000
            } else if backoff.attempt == 2 {
                8_000
            } else if backoff.attempt == 3 {
                16_000
            } else {
                30_000
            }
        }),
        backoff.reset() == (BackoffModel { attempt: 0, ..backoff }),
{
    first_delay(2_000, 30_000);
    delay_doubles(2_000, 30_000, 1);
    delay_doubles(2_000, 30_000, 2);
    delay_doubles(2_000, 30_000, 3);
    delay_doubles(2_000, 30_000, 4);
    if backoff.attempt > 3 {
        late_delays(backoff.scheduled().attempt as int);
    }
}

proof fn late_delays(attempt: int)
    requires
        attempt >= 5,
    ensures
        backoff_delay(2_000, 30_000, attempt) == 30_000,
    decreases attempt,
{
    if attempt == 5 {
        first_delay(2_000, 30_000);
        delay_doubles(2_000, 30_000, 1);
        delay_doubles(2_000, 30_000, 2);
        delay_doubles(2_000, 30_000, 3);
        delay_doubles(2_000, 30_000, 4);
    } else {
        late_delays(attempt - 1);
        delay_doubles(2_000, 30_000, attempt - 1);
    }
}

impl ReconnectBackoff {
    /// The delay kept for the next attempt is the one that the attempt will have.
    pub closed spec fn wf(self) -> bool {
        self.next == backoff_delay(
            self.base,
            self.max,
            if self.attempt < u32::MAX {
                self.attempt + 1
            } else {
                self.attempt as int
            },
        )
    }

    /// A backoff with no attempt scheduled; both delays are in milliseconds.
    pub fn new(base: u64, max: u64) -> (backoff: ReconnectBackoff)
        ensures
            backoff.wf(),
            backoff@ == (BackoffModel { base, max, attempt: 0 }),
    {
        proof {
            first_delay(base, max);
        }
        ReconnectBackoff {
            base,
            max,
            attempt: 0,
            next: if base <= max {
                base
            } else {
                max
            },
        }
    }

    /// Attempts scheduled since the last reset.
    pub fn attempt(&self) -> (attempt: u32)
        ensures
            attempt == self@.attempt,
    {
        self.attempt
    }

    /// Forgets the attempts made so far.
    pub fn reset(&mut self)
        ensures
            final(self).wf(),
            final(self)@ == old(self)@.reset(),
    {
        proof {
            first_delay(self.base, self.max);
        }
        self.attempt = 0;
        self.next = if self.base <= self.max {
            self.base
        } else {
            self.max
        };
    }

    /// Schedules the next attempt: its number and its delay in milliseconds.
    pub fn schedule_next(&mut self) -> (scheduled: (u32, u64))
        requires
            old(self).wf(),
        ensures
            final(self).wf(),
            final(self)@ == old(self)@.scheduled(),
            scheduled.0 == final(self)@.attempt,
            scheduled.1 == final(self)@.delay(),
            scheduled.1 <= old(self)@.max,
    {
        let delay: u64 = self.next;
        if self.attempt < u32::MAX {
            self.attempt = self.attempt + 1;
            proof {
                delay_doubles(self.base, self.max, self.attempt as int);
            }
            if self.attempt < u32::MAX {
                self.next = if delay <= self.max / 2 {
                    2 * delay
                } else {
                    self.max
                };
            }
        } else {
            proof {
                delay_doubles(self.base, self.max, self.attempt as int);
            }
        }
        (self.attempt, delay)
    }
}

} // verus!
