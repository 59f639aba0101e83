//! See [`ImprovementCriterion`].

use super::{Progress, StopCriterion};
use crate::problem::Objective;
use vstd::prelude::*;

verus! {

/// Fires once the solver has performed more than a configured number of
/// iterations in sequence without improving the best value seen; the progress
/// then stays at one.
#[derive(Debug)]
pub struct ImprovementCriterion {
    objective: Objective,
    best: i64,
    last_improvement: usize,
    max_without_improvement: usize,
    current_iter: usize,
    done: bool,
}

impl ImprovementCriterion {
    #[verifier::type_invariant]
    spec fn inv(&self) -> bool {
        self.last_improvement <= self.current_iter
    }

    /// The best value seen so far (or the initial value).
    pub closed spec fn spec_best(&self) -> i64 {
        self.best
    }

    /// Whether the improvement drought has already exceeded the bound.
    pub closed spec fn spec_done(&self) -> bool {
        self.done
    }

    /// The iteration at which the best value last improved.
    pub closed spec fn spec_last_improvement(&self) -> usize {
        self.last_improvement
    }

    /// How many iterations in sequence without improvement are tolerated.
    pub closed spec fn spec_max_without_improvement(&self) -> usize {
        self.max_without_improvement
    }

    /// Whether `other` strictly improves on the best value seen, under the
    /// criterion's objective.
    pub open spec fn spec_improves(&self, other: i64) -> bool {
        match self.spec_objective() {
            Objective::Min => other < self.spec_best(),
            Objective::Max => other > self.spec_best(),
        }
    }

    /// Creates a new improvement criterion.
    ///
    /// - `objective` is the direction in which values improve.
    /// - `initial` is the initial best value (a very high value for
    ///   minimization or a very low value for maximization).
    /// - `max_iters` is how many iterations in sequence without improvement
    ///   are tolerated before stopping.
    pub fn new(objective: Objective, initial: i64, max_iters: usize) -> (r: Self)
        ensures
            r.spec_best() == initial,
            r.spec_current_iter() == 0,
            !r.spec_done(),
    {
        Self {
            objective,
            best: initial,
            last_improvement: 0,
            current_iter: 0,
            max_without_improvement: max_iters,
            done: false,
        }
    }

    fn best_solution_improved(&self, other: i64) -> (r: bool)
        ensures
            r == self.spec_improves(other),
    {
        match self.objective {
            Objective::Min => other < self.best,
            Objective::Max => other > self.best,
        }
    }

    /// The objective direction this criterion was created with.
    pub closed spec fn spec_objective(&self) -> Objective {
        self.objective
    }
}

impl StopCriterion for ImprovementCriterion {
    closed spec fn spec_progress(&self) -> Progress {
        Progress { num: if self.done { 1u64 } else { 0u64 }, den: 1u64 }
    }

    closed spec fn spec_current_iter(&self) -> usize {
        self.current_iter
    }

    proof fn lemma_progress_wf(&self)
        ensures
            self.spec_progress().wf(),
    {
    }

    fn progress(&self) -> (p: Progress)
        ensures
            p == self.spec_progress(),
    {
        if self.done {
            Progress::one()
        } else {
            Progress::zero()
        }
    }

    fn update(&mut self, new_value: i64)
        ensures
            final(self).spec_objective() == old(self).spec_objective(),
            final(self).spec_max_without_improvement() == old(
                self,
            ).spec_max_without_improvement(),
            final(self).spec_best() == if old(self).spec_improves(new_value) {
                new_value
            } else {
                old(self).spec_best()
            },
            final(self).spec_last_improvement() == if old(self).spec_improves(new_value) {
                old(self).spec_current_iter() + 1
            } else {
                old(self).spec_last_improvement() as int
            },
            final(self).spec_done() == (old(self).spec_done() || old(self).spec_current_iter() + 1
                - final(self).spec_last_improvement() > old(
                self,
            ).spec_max_without_improvement()),
    {
        proof {
            use_type_invariant(&*self);
        }
        self.current_iter = self.current_iter + 1;

        if self.best_solution_improved(new_value) {
            self.best = new_value;
            self.last_improvement = self.current_iter;
        }

        let iterations_without_improvement = self.current_iter - self.last_improvement;
        if iterations_without_improvement > self.max_without_improvement {
            self.done = true;
        }
    }

    fn current_iter(&self) -> (n: usize)
        ensures
            n == self.spec_current_iter(),
    {
        self.current_iter
    }
}

/// Law: an improvement criterion's progress is one once the drought has
/// exceeded the bound and zero before, so it signals a stop exactly when
/// that has happened.
pub proof fn lemma_improvement_criterion_progress(c: &ImprovementCriterion)
    ensures
        c.spec_progress() == (Progress {
            num: if c.spec_done() {
                1u64
            } else {
                0u64
            },
            den: 1u64,
        }),
        c.spec_progress().spec_ge_one() == c.spec_done(),
{
}

} // verus!
