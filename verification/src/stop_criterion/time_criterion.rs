//! See [`TimeCriterion`].

use super::{Progress, StopCriterion};
use vstd::prelude::*;

verus! {

/// Declares `std::time::Instant` to the verifier as an opaque timestamp
/// type.
#[verifier::external_type_specification]
#[verifier::external_body]
pub struct ExInstant(std::time::Instant);

/// Relies on `std::time::Instant::now`: an opaque timestamp for the moment of
/// the call.
#[verifier::external_body]
fn instant_now() -> std::time::Instant {
    std::time::Instant::now()
}

/// Relies on `std::time::Instant::elapsed`: the time since `start`, converted
/// to whole nanoseconds and saturated to `u64`. The result depends on the
/// clock, so nothing is promised of it.
#[verifier::external_body]
fn elapsed_nanos(start: &std::time::Instant) -> u64 {
    u64::try_from(start.elapsed().as_nanos()).unwrap_or(u64::MAX)
}

/// This criterion is based on a maximum duration, expressed in nanoseconds.
///
/// The timer starts as soon as the criterion is created (through
/// [`TimeCriterion::new`]); the progress is the ratio of the time elapsed at
/// the latest update over the configured duration. The recorded elapsed time
/// never decreases, whatever the clock reports.
pub struct TimeCriterion {
    current_iter: usize,
    start: std::time::Instant,
    elapsed: u64,
    duration: u64,
}

impl TimeCriterion {
    #[verifier::type_invariant]
    spec fn inv(&self) -> bool {
        self.duration > 0
    }

    /// The configured maximum duration, in nanoseconds.
    pub closed spec fn spec_duration(&self) -> u64 {
        self.duration
    }

    /// The elapsed time recorded at the latest update, in nanoseconds.
    pub closed spec fn spec_elapsed(&self) -> u64 {
        self.elapsed
    }

    /// Creates a new time criterion which stops once `duration` nanoseconds
    /// have elapsed.
    pub fn new(duration: u64) -> (r: Self)
        requires
            duration > 0,
        ensures
            r.spec_duration() == duration,
            r.spec_elapsed() == 0,
            r.spec_current_iter() == 0,
    {
        let start = instant_now();
        Self { current_iter: 0, start, elapsed: 0, duration }
    }
}

impl StopCriterion for TimeCriterion {
    closed spec fn spec_progress(&self) -> Progress {
        Progress {
            num: self.elapsed,
            den: if self.duration > 0 {
                self.duration
            } else {
                1u64
            },
        }
    }

    closed spec fn spec_current_iter(&self) -> usize {
        self.current_iter
    }

    proof fn lemma_progress_wf(&self)
        ensures
            self.spec_progress().wf(),
    {
    }

    fn progress(&self) -> (p: Progress)
        ensures
            p == self.spec_progress(),
    {
        proof {
            use_type_invariant(self);
        }
        Progress { num: self.elapsed, den: self.duration }
    }

    fn update(&mut self, _new_value: i64)
        ensures
            final(self).spec_duration() == old(self).spec_duration(),
            final(self).spec_elapsed() >= old(self).spec_elapsed(),
    {
        proof {
            use_type_invariant(&*self);
        }
        let measured = elapsed_nanos(&self.start);
        if measured > self.elapsed {
            self.elapsed = measured;
        }
        self.current_iter = self.current_iter + 1;
        proof {
            let a = old(self).spec_progress();
            let b = self.spec_progress();
            assert(a.num * b.den <= b.num * a.den) by (nonlinear_arith)
                requires
                    a.den == b.den,
                    a.num <= b.num,
            ;
        }
    }

    fn current_iter(&self) -> (n: usize)
        ensures
            n == self.spec_current_iter(),
    {
        self.current_iter
    }
}

/// Law: a time criterion's progress is the ratio of the elapsed time
/// recorded at the latest update over the configured duration, so it
/// signals a stop exactly when the recorded elapsed time has reached the
/// duration.
pub proof fn lemma_time_criterion_progress(c: &TimeCriterion)
    requires
        c.spec_duration() > 0,
    ensures
        c.spec_progress() == (Progress { num: c.spec_elapsed(), den: c.spec_duration() }),
        c.spec_progress().spec_ge_one() == (c.spec_elapsed() >= c.spec_duration()),
{
}

} // verus!
