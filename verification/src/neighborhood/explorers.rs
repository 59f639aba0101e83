//! Explorer strategies: wrappers that turn a plain neighborhood into a
//! first-improvement, best-improvement or bounded one.

use super::{Move, Neighborhood};
use crate::problem::{compare_values, spec_compare_values, Comparison, Evaluation, Problem};
use core::marker::PhantomData;
use vstd::prelude::*;

verus! {

/// Yields the first probed move that strictly improves on the current
/// evaluation; exhaustion of the wrapped neighborhood means no candidate.
pub struct FirstImprovement<P, N> {
    neighborhood: N,
    _p: PhantomData<P>,
}

impl<P: Problem, N: Neighborhood<P>> FirstImprovement<P, N> {
    /// Wraps `neighborhood`.
    pub fn new(neighborhood: N) -> Self {
        Self { neighborhood, _p: PhantomData }
    }
}

impl<P: Problem, N: Neighborhood<P>> Neighborhood<P> for FirstImprovement<P, N> {
    type Move = N::Move;

    /// Every move handed out has passed a strict-improvement check.
    open spec fn spec_improving_only(&self) -> bool {
        true
    }

    closed spec fn spec_probes_left(&self) -> nat {
        self.neighborhood.spec_probes_left()
    }

    fn next_neighbor(&mut self, problem: &P, evaluation: &Evaluation<P::Solution>) -> (r: Option<
        Self::Move,
    >) {
        let ghost start = self.neighborhood.spec_probes_left();
        loop
            invariant
                start == old(self).spec_probes_left(),
                self.neighborhood.spec_probes_left() <= start,
            decreases self.neighborhood.spec_probes_left(),
        {
            let next = self.neighborhood.next_neighbor(problem, evaluation);
            match next {
                None => {
                    return None;
                },
                Some(m) => {
                    if m.compare(problem, evaluation) == Comparison::Better {
                        return Some(m);
                    }
                },
            }
        }
    }

    fn solution_changed(&mut self, evaluation: &Evaluation<P::Solution>) {
        self.neighborhood.solution_changed(evaluation)
    }
}

/// Probes every move of the wrapped neighborhood, tracks the one with the
/// best value, and yields it only if it strictly improves on the current
/// evaluation; otherwise there is no candidate, which is the local-optimum
/// termination signal.
pub struct BestImprovement<P, N> {
    neighborhood: N,
    _p: PhantomData<P>,
}

impl<P: Problem, N: Neighborhood<P>> BestImprovement<P, N> {
    /// Wraps `neighborhood`.
    pub fn new(neighborhood: N) -> Self {
        Self { neighborhood, _p: PhantomData }
    }
}

impl<P: Problem, N: Neighborhood<P>> Neighborhood<P> for BestImprovement<P, N> {
    type Move = N::Move;

    /// The move handed out has passed a strict-improvement check.
    open spec fn spec_improving_only(&self) -> bool {
        true
    }

    closed spec fn spec_probes_left(&self) -> nat {
        self.neighborhood.spec_probes_left()
    }

    fn next_neighbor(&mut self, problem: &P, evaluation: &Evaluation<P::Solution>) -> (r: Option<
        Self::Move,
    >) {
        let ghost start = self.neighborhood.spec_probes_left();
        let first = self.neighborhood.next_neighbor(problem, evaluation);
        let mut best = match first {
            None => {
                return None;
            },
            Some(m) => m,
        };

        loop
            invariant
                start == old(self).spec_probes_left(),
                self.neighborhood.spec_probes_left() < start,
            decreases self.neighborhood.spec_probes_left(),
        {
            let next = self.neighborhood.next_neighbor(problem, evaluation);
            match next {
                None => {
                    break ;
                },
                Some(m) => {
                    let c = compare_values(
                        problem.objective(),
                        m.value(problem, evaluation),
                        best.value(problem, evaluation),
                    );
                    if c == Comparison::Better {
                        best = m;
                    }
                },
            }
        }

        // At a local optimum the best probe does not beat the current
        // solution, and there is no candidate.
        if best.compare(problem, evaluation) == Comparison::Better {
            Some(best)
        } else {
            None
        }
    }

    fn solution_changed(&mut self, evaluation: &Evaluation<P::Solution>) {
        self.neighborhood.solution_changed(evaluation)
    }
}

/// First improvement over a finite, explicitly given set of candidate
/// moves.
///
/// Law: the result is the position of the first move that strictly improves
/// on `evaluation` — every earlier candidate does not — and it is `None`
/// exactly when no candidate strictly improves on `evaluation`.
pub fn first_improvement_of<P: Problem, M: Move<P>>(
    problem: &P,
    evaluation: &Evaluation<P::Solution>,
    moves: &Vec<M>,
) -> (r: Option<usize>)
    ensures
        match r {
            Some(i) => i < moves@.len() && spec_compare_values(
                problem.spec_objective(),
                moves@[i as int].spec_value(problem, evaluation),
                evaluation.spec_value(),
            ) == Comparison::Better && forall|j: int|
                0 <= j < i ==> spec_compare_values(
                    problem.spec_objective(),
                    (#[trigger] moves@[j]).spec_value(problem, evaluation),
                    evaluation.spec_value(),
                ) != Comparison::Better,
            None => forall|j: int|
                0 <= j < moves@.len() ==> spec_compare_values(
                    problem.spec_objective(),
                    (#[trigger] moves@[j]).spec_value(problem, evaluation),
                    evaluation.spec_value(),
                ) != Comparison::Better,
        },
{
    let mut idx: usize = 0;
    while idx < moves.len()
        invariant
            idx <= moves@.len(),
            forall|j: int|
                0 <= j < idx ==> spec_compare_values(
                    problem.spec_objective(),
                    (#[trigger] moves@[j]).spec_value(problem, evaluation),
                    evaluation.spec_value(),
                ) != Comparison::Better,
        decreases moves@.len() - idx,
    {
        if moves[idx].compare(problem, evaluation) == Comparison::Better {
            return Some(idx);
        }
        idx = idx + 1;
    }
    None
}

/// Best improvement over a finite, explicitly given set of candidate moves.
///
/// Law: the result is the position of a move whose value is weakly the best
/// among all candidates and strictly improves on `evaluation`; it is `None`
/// exactly when no candidate strictly improves on `evaluation`.
pub fn best_improvement_of<P: Problem, M: Move<P>>(
    problem: &P,
    evaluation: &Evaluation<P::Solution>,
    moves: &Vec<M>,
) -> (r: Option<usize>)
    ensures
        match r {
            Some(i) => i < moves@.len() && spec_compare_values(
                problem.spec_objective(),
                moves@[i as int].spec_value(problem, evaluation),
                evaluation.spec_value(),
            ) == Comparison::Better && forall|j: int|
                0 <= j < moves@.len() ==> spec_compare_values(
                    problem.spec_objective(),
                    (#[trigger] moves@[j]).spec_value(problem, evaluation),
                    moves@[i as int].spec_value(problem, evaluation),
                ) != Comparison::Better,
            None => forall|j: int|
                0 <= j < moves@.len() ==> spec_compare_values(
                    problem.spec_objective(),
                    (#[trigger] moves@[j]).spec_value(problem, evaluation),
                    evaluation.spec_value(),
                ) != Comparison::Better,
        },
{
    if moves.len() == 0 {
        return None;
    }

    let mut best: usize = 0;
    let mut idx: usize = 1;
    while idx < moves.len()
        invariant
            1 <= idx <= moves@.len(),
            best < idx,
            forall|j: int|
                0 <= j < idx ==> spec_compare_values(
                    problem.spec_objective(),
                    (#[trigger] moves@[j]).spec_value(problem, evaluation),
                    moves@[best as int].spec_value(problem, evaluation),
                ) != Comparison::Better,
        decreases moves@.len() - idx,
    {
        let c = compare_values(
            problem.objective(),
            moves[idx].value(problem, evaluation),
            moves[best].value(problem, evaluation),
        );
        if c == Comparison::Better {
            best = idx;
        }
        idx = idx + 1;
    }

    if moves[best].compare(problem, evaluation) == Comparison::Better {
        Some(best)
    } else {
        None
    }
}

/// Bounds an unbounded or stochastic neighborhood to at most `limit` probes
/// per reference solution; the probe counter resets when the solution
/// changes.
pub struct Finite<P, N> {
    neighborhood: N,
    limit: usize,
    current: usize,
    _phantom: PhantomData<P>,
}

impl<P, N> Finite<P, N> {
    /// How many probes are allowed per reference solution.
    pub closed spec fn spec_limit(&self) -> usize {
        self.limit
    }

    /// The wrapped neighborhood.
    pub closed spec fn spec_inner(&self) -> N {
        self.neighborhood
    }

    /// How many probes have been spent on the current reference solution.
    pub closed spec fn spec_current(&self) -> usize {
        self.current
    }

    /// Wraps `neighborhood`, allowing at most `limit` probes per reference
    /// solution.
    pub fn new(neighborhood: N, limit: usize) -> (r: Self)
        ensures
            r.spec_limit() == limit,
            r.spec_current() == 0,
    {
        Finite { _phantom: PhantomData, neighborhood, limit, current: 0 }
    }
}

impl<P: Problem, N: Neighborhood<P>> Neighborhood<P> for Finite<P, N> {
    type Move = N::Move;

    /// The bound changes which moves are yielded, not their quality.
    open spec fn spec_improving_only(&self) -> bool {
        self.spec_inner().spec_improving_only()
    }

    /// The probes still allowed for the current reference solution.
    closed spec fn spec_probes_left(&self) -> nat {
        if self.current <= self.limit {
            (self.limit - self.current) as nat
        } else {
            0
        }
    }

    fn next_neighbor(&mut self, problem: &P, evaluation: &Evaluation<P::Solution>) -> (r: Option<
        Self::Move,
    >)
        ensures
            final(self).spec_limit() == old(self).spec_limit(),
            old(self).spec_current() >= old(self).spec_limit() ==> r is None
                && final(self).spec_current() == old(self).spec_current(),
            old(self).spec_current() < old(self).spec_limit() ==> final(self).spec_current()
                == old(self).spec_current() + 1,
    {
        if self.current >= self.limit {
            None
        } else {
            self.current = self.current + 1;
            self.neighborhood.next_neighbor(problem, evaluation)
        }
    }

    fn solution_changed(&mut self, evaluation: &Evaluation<P::Solution>)
        ensures
            final(self).spec_limit() == old(self).spec_limit(),
            final(self).spec_current() == 0,
    {
        self.current = 0;
        self.neighborhood.solution_changed(evaluation)
    }
}

} // verus!
