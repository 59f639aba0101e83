use optimum::components::{Coverage, SelectionControl};
use optimum::random::{RandomSource, StdRandom};

#[test]
fn test_coverage() {
    let quantity = 10;
    let mut coverage = Coverage::<usize>::new(quantity);

    coverage.cover(5);

    assert_eq!(coverage.count(5), 1);
    assert_eq!(coverage.count(2), 0);

    coverage.cover(5);

    assert_eq!(coverage.count(5), 2);
}

#[test]
#[should_panic]
fn test_invalid_position() {
    let mut coverage = Coverage::<usize>::new(5);
    coverage.cover(20);
    let _ = coverage.count(50);
}

#[test]
fn uncover_merge_and_reset_work() {
    let mut a = Coverage::<u32>::new(4);
    a.cover(0);
    a.cover(1);
    a.cover(1);
    a.uncover(0);
    assert!(!a.is_covered(0));
    assert!(a.is_covered(1));

    let mut b = Coverage::<u32>::new(4);
    b.cover(1);
    b.cover(3);
    a.merge(&b);
    assert_eq!(a.count(1), 3);
    assert_eq!(a.count(3), 1);

    a.reset();
    for i in 0..4u32 {
        assert_eq!(a.count(i), 0);
    }
}

#[test]
fn selection_control_selects_each_element_once() {
    let quantity = 6;
    let mut selection = SelectionControl::new(quantity);
    let mut rng = StdRandom::from_seed(11);

    let mut seen = vec![false; quantity];
    for _ in 0..quantity {
        let i = selection.next(&mut rng).expect("an element should be left");
        assert!(i < quantity);
        assert!(!seen[i], "{i} was selected twice");
        seen[i] = true;
    }
    assert_eq!(selection.next(&mut rng), None);
    assert!(seen.iter().all(|&s| s));
}

#[test]
fn random_below_stays_in_range() {
    let mut rng = StdRandom::from_seed(3);
    for _ in 0..200 {
        assert!(rng.below(10) < 10);
    }
}

#[test]
fn seeded_randomness_is_reproducible() {
    let mut a = StdRandom::from_seed(7);
    let mut b = StdRandom::from_seed(7);
    for _ in 0..20 {
        assert_eq!(a.next_key(), b.next_key());
        assert_eq!(a.below(100), b.below(100));
    }
}
