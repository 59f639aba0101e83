use optimum::genetic::brkga::{Brkga, Params};
use optimum::genetic::{Decoder, RandomKey};
use optimum::problem::{Evaluation, Objective, Problem};
use optimum::random::StdRandom;
use optimum::solver::hook::Empty;
use optimum::solver::Solver;
use optimum::stop_criterion::{IterCriterion, StopCriterion};

/// All solutions are equally valuable.
struct Flat;

impl Problem for Flat {
    type Solution = ();

    fn objective(&self) -> Objective {
        Objective::Max
    }

    fn objective_function(&self, solution: ()) -> Evaluation<()> {
        Evaluation::new(solution, 0)
    }
}

/// Decodes every gene vector to the same solution.
struct FlatDecoder {
    problem: Flat,
}

impl Decoder for FlatDecoder {
    type P = Flat;

    fn problem(&self) -> &Flat {
        &self.problem
    }

    fn decode(&self, _member: &[RandomKey]) -> () {}
}

/// Maximize the sum of the genes' high bits.
struct KeySum;

impl Problem for KeySum {
    type Solution = Vec<RandomKey>;

    fn objective(&self) -> Objective {
        Objective::Max
    }

    fn objective_function(&self, solution: Vec<RandomKey>) -> Evaluation<Vec<RandomKey>> {
        let value: i64 = solution.iter().map(|k| (k >> 44) as i64).sum();
        Evaluation::new(solution, value)
    }
}

/// Decodes a gene vector to itself.
struct KeySumDecoder {
    problem: KeySum,
}

impl Decoder for KeySumDecoder {
    type P = KeySum;

    fn problem(&self) -> &KeySum {
        &self.problem
    }

    fn decode(&self, member: &[RandomKey]) -> Vec<RandomKey> {
        member.to_vec()
    }
}

fn params() -> Params {
    Params {
        population_size: 10,
        member_size: 5,
        elites: 2,
        mutants: 2,
        // Inherit from the elite parent with probability 0.7.
        crossover_bias: (u64::MAX / 10) * 7,
    }
}

#[test]
fn elites_survive_one_evolution_verbatim() {
    // Population of 10 with 2 elites and 2 mutants, fixed seed: after one
    // evolution the first two members of the new generation equal, gene for
    // gene and value for value, the top two members of the previous one.
    let decoder = FlatDecoder { problem: Flat };
    let rng = StdRandom::from_seed(1234);
    let mut brkga = Brkga::new(&decoder, rng, params());

    let previous: Vec<(Vec<RandomKey>, i64)> = (0..2)
        .map(|i| {
            let m = brkga.current_population().member(i);
            (m.keys.clone(), m.value)
        })
        .collect();

    brkga.evolve();

    for (i, (keys, value)) in previous.iter().enumerate() {
        let now = brkga.current_population().member(i);
        assert_eq!(&now.keys, keys, "elite {i} changed its genes");
        assert_eq!(now.value, *value, "elite {i} changed its value");
    }
}

#[test]
fn populations_stay_sorted_by_the_objective() {
    let decoder = KeySumDecoder { problem: KeySum };
    let rng = StdRandom::from_seed(99);
    let mut brkga = Brkga::new(&decoder, rng, params());

    for _ in 0..5 {
        brkga.evolve();
        let population = brkga.current_population();
        for i in 1..population.size() {
            assert!(
                population.member(i - 1).value >= population.member(i).value,
                "population not sorted at {i}"
            );
        }
    }
}

#[test]
fn cached_values_match_the_decoder() {
    let decoder = KeySumDecoder { problem: KeySum };
    let rng = StdRandom::from_seed(5);
    let mut brkga = Brkga::new(&decoder, rng, params());
    brkga.evolve();

    let population = brkga.current_population();
    for i in 0..population.size() {
        let member = population.member(i);
        assert_eq!(member.value, decoder.decode_value(&member.keys));
    }
}

#[test]
fn decode_value_agrees_with_scoring_the_decoded_solution() {
    let decoder = KeySumDecoder { problem: KeySum };
    let genes: Vec<RandomKey> = vec![1 << 44, 3 << 44, 7 << 44];

    let direct = decoder.decode_value(&genes);
    let through_problem = decoder
        .problem()
        .objective_function(decoder.decode(&genes))
        .value();

    assert_eq!(direct, through_problem);
    assert_eq!(direct, 11);
}

#[test]
fn generations_are_counted() {
    let decoder = FlatDecoder { problem: Flat };
    let rng = StdRandom::from_seed(8);
    let mut brkga = Brkga::new(&decoder, rng, params());

    assert_eq!(brkga.current_generation(), 0);
    brkga.evolve();
    brkga.evolve();
    assert_eq!(brkga.current_generation(), 2);
    brkga.reset();
    assert_eq!(brkga.current_generation(), 1);
}

#[test]
fn the_best_member_leads_the_population() {
    let decoder = KeySumDecoder { problem: KeySum };
    let rng = StdRandom::from_seed(21);
    let mut brkga = Brkga::new(&decoder, rng, params());
    brkga.evolve();

    let population = brkga.current_population();
    let best = brkga.best();
    for i in 0..population.size() {
        assert!(best.value >= population.member(i).value);
    }
    assert_eq!(best.keys, population.member(0).keys);
}

#[test]
fn brkga_runs_through_the_solver_loop() {
    let decoder = KeySumDecoder { problem: KeySum };
    let rng = StdRandom::from_seed(13);
    let mut brkga = Brkga::new(&decoder, rng, params());
    let mut stop = IterCriterion::new(5);
    let mut hook = Empty;

    let (best, _) = brkga.solve(&mut stop, &mut hook);
    let best = best.expect("one generation per iteration always yields a candidate");

    assert!(stop.should_stop());
    assert_eq!(brkga.current_generation(), 5);
    assert_eq!(best.value(), decoder.decode_value(best.solution()));
}

#[test]
fn identical_seeds_evolve_identically() {
    let decoder = KeySumDecoder { problem: KeySum };
    let mut a = Brkga::new(&decoder, StdRandom::from_seed(77), params());
    let mut b = Brkga::new(&decoder, StdRandom::from_seed(77), params());
    a.evolve();
    b.evolve();

    for i in 0..a.current_population().size() {
        assert_eq!(
            a.current_population().member(i).keys,
            b.current_population().member(i).keys
        );
    }
}
