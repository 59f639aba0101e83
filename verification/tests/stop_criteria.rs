use optimum::problem::Objective;
use optimum::stop_criterion::{
    CriterionCombiner, ImprovementCriterion, IterCriterion, Progress, QualityCriterion,
    StopCriterion, TimeCriterion,
};

#[test]
fn iter_criterion_it_works() {
    let mut stop = IterCriterion::new(10);
    for _ in 0..10 {
        assert!(!stop.should_stop());
        stop.update(0);
    }
    assert!(stop.should_stop());
    assert_eq!(stop.current_iter(), 10);
}

#[test]
fn time_criterion_it_works() {
    // Ten seconds, in nanoseconds.
    let mut stop = TimeCriterion::new(10_000_000_000);
    assert_eq!(stop.current_iter(), 0);
    assert_eq!(stop.progress().num, 0);

    assert!(!stop.should_stop());

    stop.update(0);

    assert_eq!(stop.current_iter(), 1);
}

#[test]
fn quality_criterion_it_works() {
    let mut criterion = QualityCriterion::new(Objective::Min, 0);

    assert_ne!(criterion.progress(), Progress::one());

    criterion.update(0);

    assert_eq!(criterion.progress(), Progress::one());
}

#[test]
fn improvement_criterion_it_works() {
    let max = 10;
    let mut criterion = ImprovementCriterion::new(Objective::Min, 0, max);

    for _ in 0..max {
        criterion.update(0);
    }

    assert_ne!(criterion.progress(), Progress::one());

    criterion.update(0);

    assert_eq!(criterion.progress(), Progress::one());
}

#[test]
fn criterion_combiner_iter_works() {
    let max_iters = 5;
    let iter = IterCriterion::new(max_iters);
    let time = TimeCriterion::new(u64::MAX);
    let mut stop_criterion = CriterionCombiner::new(iter, time);

    for i in 0..max_iters {
        assert!(!stop_criterion.should_stop());
        stop_criterion.update(i as i64);
    }

    assert!(stop_criterion.should_stop());
}

#[test]
fn combiner_stops_when_either_inner_would() {
    // The quality side fires immediately; the iteration side is far from done.
    let quality = QualityCriterion::new(Objective::Max, 3);
    let iter = IterCriterion::new(1000);
    let mut both = CriterionCombiner::new(iter, quality);

    assert!(!both.should_stop());
    both.update(5);
    assert!(both.should_stop());
    assert_eq!(both.current_iter(), 1);
}

#[test]
fn iteration_bound_progress_is_exact() {
    // An iteration bound of five: stopped exactly after the fifth update,
    // with progress current_iter / 5 throughout.
    let mut stop = IterCriterion::new(5);
    for i in 0..5u64 {
        assert_eq!(stop.progress(), Progress::new(i, 5));
        assert!(!stop.should_stop());
        stop.update(0);
    }
    assert_eq!(stop.progress(), Progress::new(5, 5));
    assert!(stop.should_stop());
}

#[test]
fn quality_criterion_is_sticky() {
    let mut criterion = QualityCriterion::new(Objective::Min, 10);
    criterion.update(11);
    assert!(!criterion.should_stop());
    criterion.update(10);
    assert!(criterion.should_stop());
    // A later worse value does not reopen the search.
    criterion.update(99);
    assert!(criterion.should_stop());
    assert_eq!(criterion.current_iter(), 3);
}

#[test]
fn improvement_criterion_counts_droughts() {
    // Maximization starting from 0, tolerating two updates without
    // improvement.
    let mut criterion = ImprovementCriterion::new(Objective::Max, 0, 2);
    criterion.update(1); // improves
    criterion.update(1); // drought 1
    criterion.update(1); // drought 2
    assert!(!criterion.should_stop());
    criterion.update(1); // drought 3 > 2
    assert!(criterion.should_stop());
}

/// A criterion implemented outside the library: stops after the first
/// update whose value is negative.
struct UntilNegative {
    fired: bool,
    iter: usize,
}

impl StopCriterion for UntilNegative {
    // The proof obligation of the trait; trivial for an unverified caller.
    fn lemma_progress_wf(&self) {}

    fn progress(&self) -> Progress {
        if self.fired {
            Progress::one()
        } else {
            Progress::zero()
        }
    }

    fn update(&mut self, new_value: i64) {
        self.fired = self.fired || new_value < 0;
        self.iter += 1;
    }

    fn current_iter(&self) -> usize {
        self.iter
    }
}

#[test]
fn criteria_can_be_implemented_by_callers() {
    let custom = UntilNegative { fired: false, iter: 0 };
    let iter = IterCriterion::new(100);
    let mut both = CriterionCombiner::new(custom, iter);

    both.update(5);
    assert!(!both.should_stop());
    both.update(-1);
    assert!(both.should_stop());
    assert_eq!(both.current_iter(), 2);
}

#[test]
fn progress_greater_of_picks_the_larger_ratio() {
    let a = Progress::new(1, 4);
    let b = Progress::new(1, 3);
    assert_eq!(Progress::greater_of(a, b), b);
    assert_eq!(Progress::greater_of(b, a), b);
    assert_eq!(Progress::greater_of(a, a), a);
    assert!(!Progress::new(4, 5).ge_one());
    assert!(Progress::new(5, 5).ge_one());
    assert!(Progress::new(7, 5).ge_one());
}
