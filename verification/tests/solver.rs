use optimum::problem::{Evaluation, Objective, Problem};
use optimum::solver::hook::Empty;
use optimum::solver::{LifeCycle, Solver};
use optimum::stop_criterion::{IterCriterion, StopCriterion};

/// Maximize the value itself.
struct Highest;

impl Problem for Highest {
    type Solution = i64;

    fn objective(&self) -> Objective {
        Objective::Max
    }

    fn objective_function(&self, solution: i64) -> Evaluation<i64> {
        Evaluation::new(solution, solution)
    }
}

/// Produces the candidates of `script`, one per iteration, then gives up.
struct Scripted {
    script: Vec<i64>,
    cursor: usize,
}

impl<SC: StopCriterion> Solver<SC> for Scripted {
    type P = Highest;

    fn objective(&self) -> Objective {
        Objective::Max
    }

    fn iterate(&mut self, _stop_criterion: &mut SC) -> Option<Evaluation<i64>> {
        let v = self.script.get(self.cursor).copied()?;
        self.cursor += 1;
        Some(Evaluation::new(v, v))
    }
}

/// Counts how the solver reports its life-cycle moments.
#[derive(Default)]
struct Recorder {
    iterated: usize,
    improvements: Vec<i64>,
}

impl LifeCycle<Highest> for Recorder {
    fn iterated(&mut self, _new: &Evaluation<i64>) {
        self.iterated += 1;
    }

    fn better_changed(&mut self, _old_best: &Evaluation<i64>, new_best: &Evaluation<i64>) {
        self.improvements.push(new_best.value());
    }
}

#[test]
fn solve_returns_the_best_candidate_ever_seen() {
    let mut solver = Scripted { script: vec![3, 9, 4, 7], cursor: 0 };
    let mut stop = IterCriterion::new(100);
    let mut hook = Recorder::default();

    let (best, _) = solver.solve(&mut stop, &mut hook);
    let best = best.expect("candidates exist");
    assert_eq!(best.value(), 9);
    // Three candidates after the seed one, each reported; the best changed
    // once, to 9.
    assert_eq!(hook.iterated, 3);
    assert_eq!(hook.improvements, vec![9]);
}

#[test]
fn solve_returns_none_when_the_first_iteration_fails() {
    let mut solver = Scripted { script: vec![], cursor: 0 };
    let mut stop = IterCriterion::new(10);
    let mut hook = Empty;

    assert!(solver.solve(&mut stop, &mut hook).0.is_none());
}

#[test]
fn solve_respects_the_stop_criterion() {
    let mut solver = Scripted { script: (0..100).collect(), cursor: 0 };
    let mut stop = IterCriterion::new(3);
    let mut hook = Empty;

    let (best, _) = solver.solve(&mut stop, &mut hook);
    let best = best.expect("candidates exist");
    // Updates: seed candidate 0, then candidates 1 and 2 reach the bound.
    assert_eq!(stop.current_iter(), 3);
    assert_eq!(best.value(), 2);
}
