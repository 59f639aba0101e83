//! The generic solver loop shared by every algorithm. See [`Solver`].

pub mod hook;

use crate::problem::{spec_compare_values, Comparison, Evaluation, Objective, Problem};
use crate::stop_criterion::StopCriterion;
use vstd::prelude::*;

verus! {

/// Hooks into special moments of a [`Solver`]'s execution, for side effects
/// such as logging. Every method is a documented no-op by default.
pub trait LifeCycle<P: Problem>: Sized {
    /// Called right after an iteration; `new` is the candidate the iteration
    /// produced.
    fn iterated(&mut self, new: &Evaluation<P::Solution>) {
        let _ = new;
    }

    /// Called when the running best is about to be replaced by a strictly
    /// better candidate.
    fn better_changed(
        &mut self,
        old_best: &Evaluation<P::Solution>,
        new_best: &Evaluation<P::Solution>,
    ) {
        let _ = old_best;
        let _ = new_best;
    }
}

/// What [`Solver::solve`] promises of its result: `v` is one of the
/// candidate values in `seen`, and no candidate value in `seen` is strictly
/// better than it under `objective`.
pub open spec fn spec_is_best_of_seen(objective: Objective, seen: Seq<i64>, v: i64) -> bool {
    &&& seen.contains(v)
    &&& forall|j: int|
        0 <= j < seen.len() ==> spec_compare_values(objective, #[trigger] seen[j], v)
            != Comparison::Better
}

/// A solver is a procedure which seeks a good solution for a given
/// [`Problem`], one candidate per iteration.
pub trait Solver<SC: StopCriterion>: Sized {
    /// The problem being solved.
    type P: Problem;

    /// The direction of the problem being solved, as a mathematical value.
    /// An implementation whose contracts are to be of use defines it; the
    /// default leaves it unspecified.
    open spec fn spec_objective(&self) -> Objective {
        arbitrary()
    }

    /// The direction of the problem being solved.
    fn objective(&self) -> (o: Objective)
        ensures
            o == self.spec_objective(),
    ;

    /// One iteration: a step that generates a candidate evaluation, or
    /// `None` when the algorithm is exhausted. It may feed values to the
    /// stop criterion but never rolls its iteration count back.
    fn iterate(&mut self, stop_criterion: &mut SC) -> (r: Option<
        Evaluation<<Self::P as Problem>::Solution>,
    >)
        ensures
            final(stop_criterion).spec_current_iter() >= old(stop_criterion).spec_current_iter(),
    ;

    /// Executes the whole process defined by the solver: iterate while the
    /// stop criterion is not met, track the best candidate seen, and return
    /// it; `None` only when the very first iteration yields no candidate.
    ///
    /// Beside the result comes the ghost sequence of the candidate values
    /// the loop actually received from [`Solver::iterate`], in order. There
    /// is a result exactly when at least one candidate arrived, and the
    /// result's value is one of those candidates, with no candidate
    /// strictly better than it under the objective the solver reported when
    /// the loop began.
    fn solve<LC: LifeCycle<Self::P>>(&mut self, stop_criterion: &mut SC, life_cycle: &mut LC) -> (r: (
        Option<Evaluation<<Self::P as Problem>::Solution>>,
        Ghost<Seq<i64>>,
    ))
        ensures
            r.0 is Some <==> r.1@.len() > 0,
            r.0 is Some ==> spec_is_best_of_seen(
                old(self).spec_objective(),
                r.1@,
                (r.0->0).spec_value(),
            ),
    {
        let objective = self.objective();
        let first = self.iterate(stop_criterion);
        let mut best_evaluation = match first {
            None => {
                return (None, Ghost(Seq::empty()));
            },
            Some(e) => e,
        };
        let ghost mut seen: Seq<i64> = seq![best_evaluation.spec_value()];
        let ghost mut best_at: int = 0;

        if stop_criterion.current_iter() == usize::MAX {
            proof {
                assert(seen[best_at] == best_evaluation.spec_value());
                assert(spec_is_best_of_seen(objective, seen, best_evaluation.spec_value()));
            }
            return (Some(best_evaluation), Ghost(seen));
        }
        stop_criterion.update(best_evaluation.value());

        while !stop_criterion.should_stop()
            invariant
                objective == old(self).spec_objective(),
                0 <= best_at < seen.len(),
                seen[best_at] == best_evaluation.spec_value(),
                forall|j: int|
                    0 <= j < seen.len() ==> spec_compare_values(
                        objective,
                        #[trigger] seen[j],
                        best_evaluation.spec_value(),
                    ) != Comparison::Better,
            decreases usize::MAX - stop_criterion.spec_current_iter(),
        {
            let next = self.iterate(stop_criterion);
            let candidate = match next {
                Some(s) => s,
                None => {
                    break ;
                },
            };

            if stop_criterion.current_iter() == usize::MAX {
                break ;
            }
            stop_criterion.update(candidate.value());
            life_cycle.iterated(&candidate);

            proof {
                seen = seen.push(candidate.spec_value());
            }
            if candidate.compare(objective, &best_evaluation) == Comparison::Better {
                life_cycle.better_changed(&best_evaluation, &candidate);
                best_evaluation = candidate;
                proof {
                    best_at = seen.len() - 1;
                }
            }
        }

        let result = Some(best_evaluation);
        proof {
            let ghost v = (result->0).spec_value();
            assert(seen[best_at] == v);
            assert(spec_is_best_of_seen(old(self).spec_objective(), seen, v));
        }
        (result, Ghost(seen))
    }
}

} // verus!
