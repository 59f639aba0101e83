//! Local-search drivers: walk a neighborhood, applying the moves it yields,
//! until the stop criterion fires.

use super::explorers::{BestImprovement, FirstImprovement};
use super::{Move, Neighborhood};
use crate::problem::{spec_compare_values, Comparison, Evaluation, Problem};
use crate::stop_criterion::StopCriterion;
use core::marker::PhantomData;
use vstd::prelude::*;

verus! {

/// Explores the surroundings of the current evaluation in order to reach
/// better solutions.
///
/// The driver returns only once the stop criterion has fired, except in the
/// degenerate case where the criterion's iteration counter has reached its
/// machine limit and no further update can be recorded.
pub trait LocalSearch<P: Problem>: Sized {
    /// Walks the neighborhood from `evaluation` until `stop_criterion`
    /// fires, and returns the evaluation reached.
    fn reach_local_optima<SC: StopCriterion>(
        &mut self,
        problem: &P,
        evaluation: Evaluation<P::Solution>,
        stop_criterion: &mut SC,
    ) -> (r: Evaluation<P::Solution>)
        ensures
            final(stop_criterion).spec_progress().spec_ge_one()
                || final(stop_criterion).spec_current_iter() == usize::MAX,
    ;
}

/// The shared driver loop: while the stop criterion has not fired, ask the
/// neighborhood for a move, apply it if one came, notify the neighborhood of
/// the change, and feed the resulting value to the stop criterion — every
/// iteration, whether or not a move was applied, so that time- or
/// iteration-bound criteria can fire even at a local optimum.
fn go_to_local_optima<P, N, SC>(
    problem: &P,
    evaluation: Evaluation<P::Solution>,
    stop_criterion: &mut SC,
    neighborhood: &mut N,
) -> (r: Evaluation<P::Solution>)
    where
        P: Problem,
        N: Neighborhood<P>,
        SC: StopCriterion,
    ensures
        final(stop_criterion).spec_progress().spec_ge_one()
            || final(stop_criterion).spec_current_iter() == usize::MAX,
        old(neighborhood).spec_improving_only() ==> spec_compare_values(
            problem.spec_objective(),
            r.spec_value(),
            evaluation.spec_value(),
        ) != Comparison::Worse,
{
    let ghost improving = neighborhood.spec_improving_only();
    let ghost start_value = evaluation.spec_value();
    let mut evaluation = evaluation;

    while !stop_criterion.should_stop()
        invariant
            neighborhood.spec_improving_only() == improving,
            improving ==> spec_compare_values(
                problem.spec_objective(),
                evaluation.spec_value(),
                start_value,
            ) != Comparison::Worse,
        ensures
            stop_criterion.spec_progress().spec_ge_one() || stop_criterion.spec_current_iter()
                == usize::MAX,
        decreases usize::MAX - stop_criterion.spec_current_iter(),
    {
        let next = neighborhood.next_neighbor(problem, &evaluation);
        if let Some(step) = next {
            evaluation = step.apply(problem, evaluation);
            neighborhood.solution_changed(&evaluation);
        }
        if stop_criterion.current_iter() == usize::MAX {
            break ;
        }
        stop_criterion.update(evaluation.value());
    }
    evaluation
}

/// A simple local-search strategy which applies whatever move the given
/// neighborhood yields, improving or not.
pub struct HillWalking<P, N> {
    neighborhood: N,
    _p: PhantomData<P>,
}

impl<P: Problem, N: Neighborhood<P>> HillWalking<P, N> {
    /// Drives `neighborhood` as it is.
    pub fn new(neighborhood: N) -> Self {
        Self { neighborhood, _p: PhantomData }
    }
}

impl<P: Problem, N: Neighborhood<P>> LocalSearch<P> for HillWalking<P, N> {
    fn reach_local_optima<SC: StopCriterion>(
        &mut self,
        problem: &P,
        evaluation: Evaluation<P::Solution>,
        stop_criterion: &mut SC,
    ) -> (r: Evaluation<P::Solution>) {
        go_to_local_optima(problem, evaluation, stop_criterion, &mut self.neighborhood)
    }
}

/// Reaches a local optimum by applying first-improving moves, so the value
/// of the result is never worse than the value it started from.
pub struct HillClimbing<P, N> {
    neighborhood: FirstImprovement<P, N>,
    _p: PhantomData<P>,
}

impl<P: Problem, N: Neighborhood<P>> HillClimbing<P, N> {
    /// Wraps `neighborhood` in a first-improvement explorer.
    pub fn new(neighborhood: N) -> Self {
        Self { neighborhood: FirstImprovement::new(neighborhood), _p: PhantomData }
    }
}

impl<P: Problem, N: Neighborhood<P>> LocalSearch<P> for HillClimbing<P, N> {
    fn reach_local_optima<SC: StopCriterion>(
        &mut self,
        problem: &P,
        evaluation: Evaluation<P::Solution>,
        stop_criterion: &mut SC,
    ) -> (r: Evaluation<P::Solution>)
        ensures
            spec_compare_values(problem.spec_objective(), r.spec_value(), evaluation.spec_value())
                != Comparison::Worse,
    {
        go_to_local_optima(problem, evaluation, stop_criterion, &mut self.neighborhood)
    }
}

/// A local search which only takes the best improvement of each
/// neighborhood sweep, so the value of the result is never worse than the
/// value it started from. Despite the name it serves minimization problems
/// too.
pub struct SteepestAscent<P, N> {
    neighborhood: BestImprovement<P, N>,
    _p: PhantomData<P>,
}

impl<P: Problem, N: Neighborhood<P>> SteepestAscent<P, N> {
    /// Wraps `neighborhood` in a best-improvement explorer.
    pub fn new(neighborhood: N) -> Self {
        Self { neighborhood: BestImprovement::new(neighborhood), _p: PhantomData }
    }
}

impl<P: Problem, N: Neighborhood<P>> LocalSearch<P> for SteepestAscent<P, N> {
    fn reach_local_optima<SC: StopCriterion>(
        &mut self,
        problem: &P,
        evaluation: Evaluation<P::Solution>,
        stop_criterion: &mut SC,
    ) -> (r: Evaluation<P::Solution>)
        ensures
            spec_compare_values(problem.spec_objective(), r.spec_value(), evaluation.spec_value())
                != Comparison::Worse,
    {
        go_to_local_optima(problem, evaluation, stop_criterion, &mut self.neighborhood)
    }
}

} // verus!
