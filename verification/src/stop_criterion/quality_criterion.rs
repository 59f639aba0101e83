//! See [`QualityCriterion`].

use super::{Progress, StopCriterion};
use crate::problem::{spec_compare_values, Comparison, Objective};
use vstd::prelude::*;

verus! {

/// Stops as soon as a target value is reached: the progress jumps to one the
/// first time an update's value reaches or surpasses the target (respecting
/// the objective direction) and stays at one from then on.
#[derive(Debug)]
pub struct QualityCriterion {
    objective: Objective,
    target: i64,
    done: bool,
    current_iter: usize,
}

impl QualityCriterion {
    /// The target value this criterion was created with.
    pub closed spec fn spec_target(&self) -> i64 {
        self.target
    }

    /// The objective direction this criterion was created with.
    pub closed spec fn spec_objective(&self) -> Objective {
        self.objective
    }

    /// Whether the target has been reached by some update so far.
    pub closed spec fn spec_done(&self) -> bool {
        self.done
    }

    /// Creates a quality criterion that fires once an update's value is at
    /// least as good as `target` under `objective`.
    pub fn new(objective: Objective, target: i64) -> (r: Self)
        ensures
            r.spec_target() == target,
            r.spec_current_iter() == 0,
            !r.spec_done(),
    {
        Self { objective, target, done: false, current_iter: 0 }
    }
}

impl StopCriterion for QualityCriterion {
    closed spec fn spec_progress(&self) -> Progress {
        Progress { num: if self.done { 1u64 } else { 0u64 }, den: 1u64 }
    }

    closed spec fn spec_current_iter(&self) -> usize {
        self.current_iter
    }

    proof fn lemma_progress_wf(&self)
        ensures
            self.spec_progress().wf(),
    {
    }

    fn progress(&self) -> (p: Progress)
        ensures
            p == self.spec_progress(),
    {
        if self.done {
            Progress::one()
        } else {
            Progress::zero()
        }
    }

    fn update(&mut self, new_value: i64)
        ensures
            final(self).spec_target() == old(self).spec_target(),
            final(self).spec_objective() == old(self).spec_objective(),
            final(self).spec_done() == (old(self).spec_done() || spec_compare_values(
                old(self).spec_objective(),
                new_value,
                old(self).spec_target(),
            ) != Comparison::Worse),
    {
        let reached = match self.objective {
            Objective::Min => new_value <= self.target,
            Objective::Max => new_value >= self.target,
        };
        self.done = self.done || reached;
        self.current_iter = self.current_iter + 1;
    }

    fn current_iter(&self) -> (n: usize)
        ensures
            n == self.spec_current_iter(),
    {
        self.current_iter
    }
}

/// Law: a quality criterion's progress is one once the target has been
/// reached and zero before, so it signals a stop exactly when some update
/// supplied a value at least as good as the target.
pub proof fn lemma_quality_criterion_progress(c: &QualityCriterion)
    ensures
        c.spec_progress() == (Progress {
            num: if c.spec_done() {
                1u64
            } else {
                0u64
            },
            den: 1u64,
        }),
        c.spec_progress().spec_ge_one() == c.spec_done(),
{
}

} // verus!
