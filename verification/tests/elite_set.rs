use optimum::elite_set::{EliteSet, Score};
use optimum::problem::{Evaluation, Objective};

fn insert_helper(elite: &mut EliteSet<i64>, number: i64) -> Result<(), i64> {
    elite
        .try_insert(Evaluation::new(number, number))
        .map_err(|e| e.value())
}

#[test]
fn elite_set_basic_operations_work() {
    let mut elite = EliteSet::<i64>::new(Objective::Max, 3, i64::MIN);

    let successful_insertions = [5, 8, 7, 6];

    for el in successful_insertions {
        assert_eq!(insert_helper(&mut elite, el), Ok(()));
    }

    assert_eq!(insert_helper(&mut elite, 4), Err(4));

    assert_eq!(elite.best().unwrap().value(), 8);
    assert_eq!(elite.worse().unwrap().value(), 6);
}

#[test]
fn elite_set_iterator_works() {
    let insertions = [1, 2, 3];
    let mut elite = EliteSet::<i64>::new(Objective::Max, 3, i64::MIN);

    for el in insertions {
        insert_helper(&mut elite, el).unwrap();
    }

    let mut values = Vec::new();
    let mut it = elite.iter();
    while let Some(e) = it.next() {
        values.push(e.value());
    }
    assert_eq!(values, insertions);
}

#[test]
fn capacity_two_keeps_the_two_best() {
    // Capacity 2, maximizing, inserting 5, 8, 7, 6 in sequence: the set ends
    // up holding exactly {8, 7}, the worst of them is 7, and a later 4 is
    // rejected.
    let mut elite = EliteSet::<i64>::new(Objective::Max, 2, i64::MIN);

    assert_eq!(insert_helper(&mut elite, 5), Ok(()));
    assert_eq!(insert_helper(&mut elite, 8), Ok(()));
    assert_eq!(insert_helper(&mut elite, 7), Ok(()));
    assert_eq!(insert_helper(&mut elite, 6), Err(6));

    let mut values = Vec::new();
    let mut it = elite.iter();
    while let Some(e) = it.next() {
        values.push(e.value());
    }
    values.sort();
    assert_eq!(values, [7, 8]);

    assert_eq!(elite.worse().unwrap().value(), 7);
    assert_eq!(insert_helper(&mut elite, 4), Err(4));
}

#[test]
fn size_never_exceeds_capacity() {
    let mut elite = EliteSet::<i64>::new(Objective::Min, 3, i64::MAX);
    for el in [9, 3, 7, 1, 8, 2] {
        let _ = insert_helper(&mut elite, el);
    }
    assert!(elite.len() <= 3);
    assert_eq!(elite.best().unwrap().value(), 1);
}

#[test]
fn duplicate_solutions_are_rejected() {
    let mut elite = EliteSet::<i64>::new(Objective::Max, 3, i64::MIN);
    assert_eq!(insert_helper(&mut elite, 5), Ok(()));
    assert_eq!(insert_helper(&mut elite, 5), Err(5));
    assert_eq!(elite.len(), 1);
}

#[test]
fn a_better_candidate_evicts_exactly_the_previous_worst() {
    let mut elite = EliteSet::<i64>::new(Objective::Max, 2, i64::MIN);
    insert_helper(&mut elite, 10).unwrap();
    insert_helper(&mut elite, 20).unwrap();
    // Full: the worst is 10; 15 evicts it and only it.
    insert_helper(&mut elite, 15).unwrap();

    let mut values = Vec::new();
    let mut it = elite.iter();
    while let Some(e) = it.next() {
        values.push(e.value());
    }
    values.sort();
    assert_eq!(values, [15, 20]);
    assert_eq!(elite.len(), 2);
}

#[test]
fn evaluations_expose_their_score() {
    let e = Evaluation::new("solution", 42);
    assert_eq!(e.value(), 42);
    assert_eq!(e.score(), 42);
    assert_eq!(*e.solution(), "solution");
    assert_eq!(e.into_solution(), "solution");
}
