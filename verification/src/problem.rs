//! The basic vocabulary of an optimization task: the direction of the search
//! ([`Objective`]), the outcome of comparing two candidate values
//! ([`Comparison`]), the pairing of a solution with its score
//! ([`Evaluation`]) and the [`Problem`] abstraction itself.

use vstd::prelude::*;

verus! {

/// Determines whether the objective function is to be minimized or maximized.
#[derive(Debug, Clone, Copy, PartialEq, Eq, Structural)]
pub enum Objective {
    /// Minimization: smaller values are better.
    Min,
    /// Maximization: larger values are better.
    Max,
}

/// The quality relation between a first value and a second value, relative to
/// an [`Objective`].
#[derive(Debug, Clone, Copy, PartialEq, Eq, Structural)]
pub enum Comparison {
    /// The first is better than the second.
    Better,
    /// Both are equally valuable.
    Equal,
    /// The first is worse than the second.
    Worse,
}

/// How `a` relates to `b` under `objective`: for `Min`, smaller is `Better`;
/// for `Max`, larger is `Better`.
pub open spec fn spec_compare_values(objective: Objective, a: i64, b: i64) -> Comparison {
    match objective {
        Objective::Min => {
            if a < b {
                Comparison::Better
            } else if a == b {
                Comparison::Equal
            } else {
                Comparison::Worse
            }
        },
        Objective::Max => {
            if a > b {
                Comparison::Better
            } else if a == b {
                Comparison::Equal
            } else {
                Comparison::Worse
            }
        },
    }
}

/// Compare the value `a` with the value `b` directly, under `objective`.
pub fn compare_values(objective: Objective, a: i64, b: i64) -> (c: Comparison)
    ensures
        c == spec_compare_values(objective, a, b),
{
    match objective {
        Objective::Min => {
            if a < b {
                Comparison::Better
            } else if a == b {
                Comparison::Equal
            } else {
                Comparison::Worse
            }
        },
        Objective::Max => {
            if a > b {
                Comparison::Better
            } else if a == b {
                Comparison::Equal
            } else {
                Comparison::Worse
            }
        },
    }
}

/// The association of a solution with the value that the objective function
/// assigned to it. Immutable once built.
pub struct Evaluation<S> {
    value: i64,
    solution: S,
}

impl<S> Evaluation<S> {
    /// The value carried by this evaluation.
    pub closed spec fn spec_value(&self) -> i64 {
        self.value
    }

    /// The solution carried by this evaluation.
    pub closed spec fn spec_solution(&self) -> S {
        self.solution
    }

    /// Creates a new evaluation, associating a solution with a value.
    pub fn new(solution: S, value: i64) -> (e: Self)
        ensures
            e.spec_solution() == solution,
            e.spec_value() == value,
    {
        Self { solution, value }
    }

    /// Get a reference to the evaluation's solution.
    pub fn solution(&self) -> (s: &S)
        ensures
            *s == self.spec_solution(),
    {
        &self.solution
    }

    /// Gives ownership of the solution.
    pub fn into_solution(self) -> (s: S)
        ensures
            s == self.spec_solution(),
    {
        self.solution
    }

    /// Get the evaluation's value.
    pub fn value(&self) -> (v: i64)
        ensures
            v == self.spec_value(),
    {
        self.value
    }

    /// Whether `self` is better, equal or worse than `other` under
    /// `objective`.
    pub fn compare(&self, objective: Objective, other: &Self) -> (c: Comparison)
        ensures
            c == spec_compare_values(objective, self.spec_value(), other.spec_value()),
    {
        self.compare_value(objective, other.value)
    }

    /// Compare `self` with the value `other` directly, under `objective`.
    pub fn compare_value(&self, objective: Objective, other: i64) -> (c: Comparison)
        ensures
            c == spec_compare_values(objective, self.spec_value(), other),
    {
        compare_values(objective, self.value, other)
    }
}

/// The core abstraction of the framework: a problem exposes the direction of
/// the search and a scoring function over its solutions.
///
/// The scoring function is modelled by [`Problem::spec_score`], a
/// deterministic mathematical function; [`Problem::objective_function`] must
/// return exactly that score for the solution it is given.
pub trait Problem: Sized {
    /// The structure of a candidate solution to the problem.
    type Solution;

    /// The direction of the search, as a mathematical value. An
    /// implementation whose contracts are to be of use defines it; the
    /// default leaves it unspecified.
    open spec fn spec_objective(&self) -> Objective {
        arbitrary()
    }

    /// The score of a solution, as a mathematical function. An
    /// implementation whose contracts are to be of use defines it; the
    /// default leaves it unspecified.
    open spec fn spec_score(&self, solution: Self::Solution) -> i64 {
        arbitrary()
    }

    /// The direction of the search.
    fn objective(&self) -> (o: Objective)
        ensures
            o == self.spec_objective(),
    ;

    /// Associates a value to `solution` through an [`Evaluation`].
    fn objective_function(&self, solution: Self::Solution) -> (e: Evaluation<Self::Solution>)
        ensures
            e.spec_solution() == solution,
            e.spec_value() == self.spec_score(solution),
    ;
}

} // verus!
