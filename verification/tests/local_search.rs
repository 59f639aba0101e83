use optimum::neighborhood::explorers::{
    best_improvement_of, first_improvement_of, BestImprovement, Finite, FirstImprovement,
};
use optimum::neighborhood::local_search::{HillClimbing, HillWalking, LocalSearch, SteepestAscent};
use optimum::neighborhood::{Move, Neighborhood};
use optimum::problem::{compare_values, Comparison, Evaluation, Objective, Problem};
use optimum::stop_criterion::{IterCriterion, StopCriterion};

/// Minimize the value itself; a solution is its own value.
struct Lowest;

impl Problem for Lowest {
    type Solution = i64;

    fn objective(&self) -> Objective {
        Objective::Min
    }

    fn objective_function(&self, solution: i64) -> Evaluation<i64> {
        Evaluation::new(solution, solution)
    }
}

/// A move that sets the solution to a fixed value.
struct SetTo(i64);

impl Move<Lowest> for SetTo {
    fn apply(&self, problem: &Lowest, _evaluation: Evaluation<i64>) -> Evaluation<i64> {
        problem.objective_function(self.0)
    }

    fn value(&self, _problem: &Lowest, _evaluation: &Evaluation<i64>) -> i64 {
        self.0
    }
}

/// Yields one move per prepared value, in order, until exhausted; the cursor
/// starts over whenever the reference solution changes.
struct Prepared {
    values: Vec<i64>,
    cursor: usize,
}

impl Prepared {
    fn new(values: Vec<i64>) -> Self {
        Self { values, cursor: 0 }
    }
}

impl Neighborhood<Lowest> for Prepared {
    type Move = SetTo;

    fn next_neighbor(
        &mut self,
        _problem: &Lowest,
        _evaluation: &Evaluation<i64>,
    ) -> Option<SetTo> {
        let v = self.values.get(self.cursor).copied()?;
        self.cursor += 1;
        Some(SetTo(v))
    }

    fn solution_changed(&mut self, _evaluation: &Evaluation<i64>) {
        self.cursor = 0;
    }
}

#[test]
fn best_improvement_picks_the_best_improving_move() {
    // Minimization, current value 8, candidate moves leading to 10, 7 and
    // 9: best improvement takes the move to 7 — the only improving one, and
    // the best of all three.
    let problem = Lowest;
    let current = problem.objective_function(8);
    let moves = vec![SetTo(10), SetTo(7), SetTo(9)];

    let chosen = best_improvement_of(&problem, &current, &moves);
    assert_eq!(chosen, Some(1));
    assert_eq!(moves[chosen.unwrap()].value(&problem, &current), 7);
}

#[test]
fn best_improvement_returns_none_at_a_local_optimum() {
    let problem = Lowest;
    let current = problem.objective_function(5);
    let moves = vec![SetTo(10), SetTo(7), SetTo(9)];

    assert_eq!(best_improvement_of(&problem, &current, &moves), None);
}

#[test]
fn best_improvement_explorer_scans_the_whole_neighborhood() {
    let problem = Lowest;
    let current = problem.objective_function(8);
    let mut explorer = BestImprovement::new(Prepared::new(vec![10, 7, 9]));

    let m = explorer
        .next_neighbor(&problem, &current)
        .expect("7 improves on 8");
    assert_eq!(m.value(&problem, &current), 7);

    // Exhausted now: no further candidate for this solution.
    assert!(explorer.next_neighbor(&problem, &current).is_none());
}

#[test]
fn first_improvement_of_finds_the_first_improving_candidate() {
    let problem = Lowest;
    let current = problem.objective_function(8);

    // 7 is the first improving candidate; 10 and 9 before it do not improve.
    let moves = vec![SetTo(10), SetTo(9), SetTo(7), SetTo(6)];
    assert_eq!(first_improvement_of(&problem, &current, &moves), Some(2));

    // At a local optimum there is no candidate.
    let worse = vec![SetTo(10), SetTo(9)];
    assert_eq!(first_improvement_of(&problem, &current, &worse), None);
}

#[test]
fn first_improvement_takes_the_first_improving_move() {
    let problem = Lowest;
    let current = problem.objective_function(8);
    let mut explorer = FirstImprovement::new(Prepared::new(vec![10, 7, 6]));

    let m = explorer
        .next_neighbor(&problem, &current)
        .expect("7 improves on 8");
    assert_eq!(m.value(&problem, &current), 7);
}

#[test]
fn finite_bounds_the_probes_and_resets_on_solution_change() {
    let problem = Lowest;
    let current = problem.objective_function(0);
    // An inexhaustible neighborhood of non-improving moves.
    struct Endless;
    impl Neighborhood<Lowest> for Endless {
        type Move = SetTo;

        fn next_neighbor(
            &mut self,
            _problem: &Lowest,
            _evaluation: &Evaluation<i64>,
        ) -> Option<SetTo> {
            Some(SetTo(100))
        }

        fn solution_changed(&mut self, _evaluation: &Evaluation<i64>) {}
    }

    let mut bounded = Finite::new(Endless, 3);
    for _ in 0..3 {
        assert!(bounded.next_neighbor(&problem, &current).is_some());
    }
    assert!(bounded.next_neighbor(&problem, &current).is_none());

    bounded.solution_changed(&current);
    assert!(bounded.next_neighbor(&problem, &current).is_some());
}

#[test]
fn hill_climbing_never_worsens_the_solution() {
    let problem = Lowest;
    let start = problem.objective_function(8);
    let mut search = HillClimbing::new(Prepared::new(vec![9, 6, 3]));
    let mut stop = IterCriterion::new(10);

    let reached = search.reach_local_optima(&problem, start, &mut stop);

    assert!(stop.should_stop());
    assert_eq!(
        compare_values(Objective::Min, reached.value(), 8),
        Comparison::Better
    );
    assert_eq!(reached.value(), 3);
}

#[test]
fn steepest_ascent_reaches_the_best_prepared_value() {
    let problem = Lowest;
    let start = problem.objective_function(8);
    let mut search = SteepestAscent::new(Prepared::new(vec![9, 6, 3]));
    let mut stop = IterCriterion::new(10);

    let reached = search.reach_local_optima(&problem, start, &mut stop);

    assert!(stop.should_stop());
    assert_eq!(reached.value(), 3);
}

#[test]
fn hill_walking_applies_whatever_move_comes() {
    let problem = Lowest;
    let start = problem.objective_function(8);
    // The first prepared move worsens the solution; hill walking takes it
    // anyway.
    let mut search = HillWalking::new(Finite::new(Prepared::new(vec![11]), 1));
    let mut stop = IterCriterion::new(1);

    let reached = search.reach_local_optima(&problem, start, &mut stop);
    assert!(stop.should_stop());
    assert_eq!(reached.value(), 11);
}
