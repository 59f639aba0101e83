use optimum::problem::{compare_values, Comparison, Evaluation, Objective};

#[test]
fn minimization_prefers_smaller_values() {
    assert_eq!(compare_values(Objective::Min, 1, 2), Comparison::Better);
    assert_eq!(compare_values(Objective::Min, 2, 2), Comparison::Equal);
    assert_eq!(compare_values(Objective::Min, 3, 2), Comparison::Worse);
}

#[test]
fn maximization_prefers_larger_values() {
    assert_eq!(compare_values(Objective::Max, 1, 2), Comparison::Worse);
    assert_eq!(compare_values(Objective::Max, 2, 2), Comparison::Equal);
    assert_eq!(compare_values(Objective::Max, 3, 2), Comparison::Better);
}

#[test]
fn evaluations_compare_through_the_objective() {
    let a = Evaluation::new("a", 5);
    let b = Evaluation::new("b", 8);

    assert_eq!(a.compare(Objective::Min, &b), Comparison::Better);
    assert_eq!(a.compare(Objective::Max, &b), Comparison::Worse);
    assert_eq!(a.compare_value(Objective::Min, 5), Comparison::Equal);
}
