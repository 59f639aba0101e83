//! The [`StopCriterion`] trait and a number of stop criteria which are often
//! useful.
//!
//! - [`IterCriterion`]: stops after a maximum number of iterations.
//! - [`TimeCriterion`]: stops after a given time has elapsed.
//! - [`QualityCriterion`]: stops once a solution reaches a target quality.
//! - [`ImprovementCriterion`]: stops after too many iterations without an
//!   improvement of the best value seen.
//! - [`CriterionCombiner`]: combines two criteria and stops as soon as either
//!   of them would stop.
//!
//! Progress is reported as an exact ratio of two integers (see [`Progress`]),
//! so that "the criterion has fired" is precisely "progress is at least one".

mod criterion_combiner;
mod improvement_criterion;
mod iter_criterion;
mod quality_criterion;
mod time_criterion;

pub use criterion_combiner::{
    lemma_combiner_progress_is_greater_of, lemma_combiner_stops_iff_either, CriterionCombiner,
};
pub use improvement_criterion::{lemma_improvement_criterion_progress, ImprovementCriterion};
pub use iter_criterion::{lemma_iter_criterion_progress, IterCriterion};
pub use quality_criterion::{lemma_quality_criterion_progress, QualityCriterion};
pub use time_criterion::{lemma_time_criterion_progress, TimeCriterion};

use vstd::prelude::*;

verus! {

/// A progress measure, expressed as the exact ratio `num / den`.
///
/// A well-formed progress has `den > 0`. The ratio starts below one and the
/// criterion owning it is expected to stop once it reaches one; the ratio may
/// exceed one when updates continue past that point.
#[derive(Debug, Clone, Copy, PartialEq, Eq, Structural)]
pub struct Progress {
    /// Numerator: how much ground has been covered.
    pub num: u64,
    /// Denominator: how much ground there is in total; always positive when
    /// well formed.
    pub den: u64,
}

impl Progress {
    /// Well-formedness: the denominator is positive.
    pub open spec fn wf(&self) -> bool {
        self.den > 0
    }

    /// The ratio is at least one.
    pub open spec fn spec_ge_one(&self) -> bool {
        self.num >= self.den
    }

    /// `a` is at most `b`, comparing the two ratios by cross-multiplication.
    pub open spec fn spec_le(a: Progress, b: Progress) -> bool {
        a.num * b.den <= b.num * a.den
    }

    /// The larger of the two ratios; `b` when they are equal.
    pub open spec fn spec_greater_of(a: Progress, b: Progress) -> Progress {
        if Progress::spec_le(a, b) {
            b
        } else {
            a
        }
    }

    /// The ratio `num / den`.
    pub fn new(num: u64, den: u64) -> (r: Progress)
        requires
            den > 0,
        ensures
            r == (Progress { num, den }),
    {
        Progress { num, den }
    }

    /// A progress of zero: nothing covered yet.
    pub fn zero() -> (r: Progress)
        ensures
            r == (Progress { num: 0u64, den: 1u64 }),
            !r.spec_ge_one(),
    {
        Progress { num: 0, den: 1 }
    }

    /// A progress of one: complete.
    pub fn one() -> (r: Progress)
        ensures
            r == (Progress { num: 1u64, den: 1u64 }),
            r.spec_ge_one(),
    {
        Progress { num: 1, den: 1 }
    }

    /// Whether the ratio has reached one.
    pub fn ge_one(&self) -> (r: bool)
        ensures
            r == self.spec_ge_one(),
    {
        self.num >= self.den
    }

    /// The larger of the two ratios.
    pub fn greater_of(a: Progress, b: Progress) -> (r: Progress)
        ensures
            r == Progress::spec_greater_of(a, b),
    {
        proof {
            assert(a.num * b.den <= u64::MAX * u64::MAX && b.num * a.den <= u64::MAX * u64::MAX)
                by (nonlinear_arith)
                requires
                    a.num <= u64::MAX,
                    a.den <= u64::MAX,
                    b.num <= u64::MAX,
                    b.den <= u64::MAX,
            ;
        }
        if (a.num as u128) * (b.den as u128) <= (b.num as u128) * (a.den as u128) {
            b
        } else {
            a
        }
    }
}

/// The larger of two well-formed ratios reaches one exactly when either of
/// them does.
pub proof fn lemma_greater_of_ge_one(a: Progress, b: Progress)
    requires
        a.wf(),
        b.wf(),
    ensures
        Progress::spec_greater_of(a, b).spec_ge_one() == (a.spec_ge_one() || b.spec_ge_one()),
{
    if Progress::spec_le(a, b) {
        if a.spec_ge_one() && !b.spec_ge_one() {
            assert(a.num * b.den >= a.den * b.den > b.num * a.den) by (nonlinear_arith)
                requires
                    a.num >= a.den,
                    b.num < b.den,
                    a.den > 0,
                    b.den > 0,
            ;
        }
    } else {
        if b.spec_ge_one() && !a.spec_ge_one() {
            assert(b.num * a.den >= b.den * a.den > a.num * b.den) by (nonlinear_arith)
                requires
                    b.num >= b.den,
                    a.num < a.den,
                    a.den > 0,
                    b.den > 0,
            ;
        }
    }
}

/// Taking the larger ratio on each side preserves the ordering of ratios.
pub proof fn lemma_greater_of_monotonic(a1: Progress, b1: Progress, a2: Progress, b2: Progress)
    requires
        a1.wf(),
        b1.wf(),
        a2.wf(),
        b2.wf(),
        Progress::spec_le(a1, a2),
        Progress::spec_le(b1, b2),
    ensures
        Progress::spec_le(
            Progress::spec_greater_of(a1, b1),
            Progress::spec_greater_of(a2, b2),
        ),
{
    let g1 = Progress::spec_greater_of(a1, b1);
    let g2 = Progress::spec_greater_of(a2, b2);
    assert(Progress::spec_le(g1, g2)) by (nonlinear_arith)
        requires
            a1.den > 0,
            b1.den > 0,
            a2.den > 0,
            b2.den > 0,
            Progress::spec_le(a1, a2),
            Progress::spec_le(b1, b2),
            g1 == Progress::spec_greater_of(a1, b1),
            g2 == Progress::spec_greater_of(a2, b2),
    ;
}

/// A stop criterion determines when a solver should stop seeking better
/// solutions and yield its result.
///
/// The progress starts below one and, for every implementation in this crate,
/// never decreases as updates arrive; the criterion fires exactly when the
/// progress reaches one.
pub trait StopCriterion: Sized {
    /// The current progress, as a mathematical value. An implementation
    /// whose contracts are to be of use defines it; the default reports no
    /// progress at all.
    open spec fn spec_progress(&self) -> Progress {
        Progress { num: 0u64, den: 1u64 }
    }

    /// The number of updates received so far, as a mathematical value. An
    /// implementation whose contracts are to be of use defines it; the
    /// default leaves it unspecified.
    open spec fn spec_current_iter(&self) -> usize {
        arbitrary()
    }

    /// Every reachable state reports a well-formed progress ratio.
    proof fn lemma_progress_wf(&self)
        ensures
            self.spec_progress().wf(),
    ;

    /// The progress towards the stopping point.
    fn progress(&self) -> (p: Progress)
        ensures
            p == self.spec_progress(),
    ;

    /// True when the progress has reached one.
    fn should_stop(&self) -> (r: bool)
        ensures
            r == self.spec_progress().spec_ge_one(),
    {
        let p = self.progress();
        p.num >= p.den
    }

    /// Updates the internal state; `new_value` is the value of the newly
    /// generated solution. Must be called at the end of each iteration. The
    /// iteration count grows by one and the progress never decreases.
    fn update(&mut self, new_value: i64)
        requires
            old(self).spec_current_iter() < usize::MAX,
        ensures
            final(self).spec_current_iter() == old(self).spec_current_iter() + 1,
            Progress::spec_le(old(self).spec_progress(), final(self).spec_progress()),
    ;

    /// How many times [`StopCriterion::update`] was called.
    fn current_iter(&self) -> (n: usize)
        ensures
            n == self.spec_current_iter(),
    ;
}

} // verus!
