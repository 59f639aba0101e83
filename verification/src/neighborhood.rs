//! Moves, neighborhoods and the explorer strategies built on them.
//!
//! A [`Move`] is a candidate transformation of a solution together with the
//! value the transformed solution would have; a [`Neighborhood`] is a
//! stateful generator of moves around the current evaluation. The
//! [`explorers`] submodule wraps neighborhoods into the first-improvement,
//! best-improvement and bounded variants, and [`local_search`] holds the
//! drivers that walk a neighborhood until a stop criterion fires.

pub mod explorers;
pub mod local_search;

use crate::problem::{compare_values, spec_compare_values, Comparison, Evaluation, Problem};
use vstd::prelude::*;

verus! {

/// A candidate transformation of a solution.
///
/// [`Move::spec_value`] is the value the current solution would have after
/// the move; [`Move::apply`] must produce an evaluation carrying exactly that
/// value, so that a move stays consistent with the problem's scoring.
pub trait Move<P: Problem>: Sized {
    /// The value the transformed solution would have, as a mathematical
    /// function of the move, the problem and the current evaluation. An
    /// implementation whose contracts are to be of use defines it; the
    /// default leaves it unspecified.
    open spec fn spec_value(&self, problem: &P, evaluation: &Evaluation<P::Solution>) -> i64 {
        arbitrary()
    }

    /// Applies the move: consumes the evaluation and returns the evaluation
    /// of the transformed solution.
    fn apply(&self, problem: &P, evaluation: Evaluation<P::Solution>) -> (r: Evaluation<
        P::Solution,
    >)
        ensures
            r.spec_value() == self.spec_value(problem, &evaluation),
    ;

    /// The value the transformed solution would have, without mutating
    /// anything.
    fn value(&self, problem: &P, evaluation: &Evaluation<P::Solution>) -> (v: i64)
        ensures
            v == self.spec_value(problem, evaluation),
    ;

    /// Whether the move would improve on `evaluation`, under the problem's
    /// objective.
    fn compare(&self, problem: &P, evaluation: &Evaluation<P::Solution>) -> (c: Comparison)
        ensures
            c == spec_compare_values(
                problem.spec_objective(),
                self.spec_value(problem, evaluation),
                evaluation.spec_value(),
            ),
    {
        let neighbor_value = self.value(problem, evaluation);
        compare_values(problem.objective(), neighbor_value, evaluation.value())
    }
}

/// A stateful generator of candidate moves around the current evaluation.
///
/// [`Neighborhood::solution_changed`] is invoked whenever the reference
/// evaluation changes, and is the place to reset internal counters or caches.
///
/// [`Neighborhood::spec_improving_only`] is the refinement hook for wrappers:
/// a neighborhood whose every move is strictly improving reports `true` there
/// and carries the corresponding obligation on
/// [`Neighborhood::next_neighbor`]; a plain neighborhood reports `false` and
/// owes nothing.
pub trait Neighborhood<P: Problem>: Sized {
    /// The kind of move this neighborhood yields.
    type Move: Move<P>;

    /// Whether every move this neighborhood yields is strictly improving.
    open spec fn spec_improving_only(&self) -> bool {
        false
    }

    /// An upper bound on how many more moves the neighborhood can yield
    /// before it signals exhaustion for the current reference solution;
    /// [`Neighborhood::solution_changed`] may replenish it. An
    /// implementation whose contracts are to be of use defines it; the
    /// default leaves it unspecified.
    open spec fn spec_probes_left(&self) -> nat {
        arbitrary()
    }

    /// The next candidate move, or `None` when the neighborhood is exhausted
    /// for the current call. Each yielded move consumes probe budget.
    fn next_neighbor(&mut self, problem: &P, evaluation: &Evaluation<P::Solution>) -> (r: Option<
        Self::Move,
    >)
        ensures
            final(self).spec_improving_only() == old(self).spec_improving_only(),
            final(self).spec_probes_left() <= old(self).spec_probes_left(),
            r is Some ==> final(self).spec_probes_left() < old(self).spec_probes_left(),
            old(self).spec_improving_only() ==> match r {
                Some(m) => spec_compare_values(
                    problem.spec_objective(),
                    m.spec_value(problem, evaluation),
                    evaluation.spec_value(),
                ) == Comparison::Better,
                None => true,
            },
    ;

    /// Tells the neighborhood that the reference evaluation has changed.
    fn solution_changed(&mut self, evaluation: &Evaluation<P::Solution>)
        ensures
            final(self).spec_improving_only() == old(self).spec_improving_only(),
    ;
}

} // verus!
