//! The biased random-key genetic algorithm.
//!
//! Each generation keeps the best members verbatim (elitism), breeds the
//! middle of the population by biased uniform crossover between an elite and
//! a non-elite parent, replaces the worst members by random mutants, then
//! rescores and reranks everything. The main items here are [`Brkga`] and
//! its [`Params`].

use super::decoder::{Decoder, RandomKey};
use super::population::{spec_keys_present, spec_scored, spec_sorted_by, Member, Population};
use crate::problem::{Evaluation, Objective, Problem};
use crate::random::RandomSource;
use crate::solver::Solver;
use crate::stop_criterion::StopCriterion;
use vstd::prelude::*;

verus! {

/// The parameters needed to run the BRKGA algorithm.
#[derive(Debug, Clone, Copy, PartialEq, Eq, Structural)]
pub struct Params {
    /// Size of a population; must be greater than zero.
    pub population_size: usize,
    /// Number of genes in a member; must be greater than zero.
    pub member_size: usize,
    /// Number of elites (best members) of a population.
    pub elites: usize,
    /// Number of mutants generated from one generation to the next.
    pub mutants: usize,
    /// How probable it is to inherit a gene from the elite parent: a gene
    /// comes from the elite parent when a fresh random key is at most this
    /// value, i.e. with probability `(crossover_bias + 1) / 2^64`. Should
    /// correspond to a probability in `[0.5, 1.0]`.
    pub crossover_bias: RandomKey,
}

impl Params {
    /// Validity of the parameters: the population is non-empty, members
    /// have at least one gene, elites and mutants fit into the population
    /// together, and whenever there is a slot bred by crossover there is at
    /// least one elite parent and one non-elite parent to draw from.
    pub open spec fn spec_wf(&self) -> bool {
        &&& self.population_size > 0
        &&& self.member_size > 0
        &&& self.elites + self.mutants <= self.population_size
        &&& self.elites + self.mutants < self.population_size ==> (self.elites > 0
            && self.elites < self.population_size)
    }

    /// Validity of the parameters, checked at run time.
    pub fn wf(&self) -> (r: bool)
        ensures
            r == self.spec_wf(),
    {
        self.population_size > 0 && self.member_size > 0 && self.mutants
            <= self.population_size && self.elites <= self.population_size - self.mutants && (
        self.elites + self.mutants >= self.population_size || (self.elites > 0 && self.elites
            < self.population_size))
    }
}

/// The interface to execute the BRKGA algorithm over the problem defined by
/// a [`Decoder`].
pub struct Brkga<'a, D: Decoder, R: RandomSource> {
    decoder: &'a D,
    rng: R,
    current: Population,
    previous: Population,
    generations: usize,
    params: Params,
}

impl<'a, D: Decoder, R: RandomSource> Brkga<'a, D, R> {
    /// The parameters the algorithm was created with.
    pub closed spec fn spec_params(&self) -> Params {
        self.params
    }

    /// The decoder the algorithm scores members with.
    pub closed spec fn spec_decoder(&self) -> D {
        *self.decoder
    }

    /// How many generations have been evolved.
    pub closed spec fn spec_generations(&self) -> usize {
        self.generations
    }

    /// The members of the current population.
    pub closed spec fn spec_current_members(&self) -> Seq<Member> {
        self.current.spec_members()
    }

    /// The members of the scratch buffer that the next generation will be
    /// written into.
    pub closed spec fn spec_previous_members(&self) -> Seq<Member> {
        self.previous.spec_members()
    }

    /// Validity of the whole state: the parameters are valid and both
    /// population buffers agree with them in shape — one member per
    /// population slot, each with one gene per chromosome position.
    /// Established by [`Brkga::new`] and preserved by every method.
    pub open spec fn spec_wf(&self) -> bool {
        &&& self.spec_params().spec_wf()
        &&& self.spec_current_members().len() == self.spec_params().population_size
        &&& forall|i: int|
            0 <= i < self.spec_current_members().len() ==> (
            #[trigger] self.spec_current_members()[i]).keys@.len()
                == self.spec_params().member_size
        &&& self.spec_previous_members().len() == self.spec_params().population_size
        &&& forall|i: int|
            0 <= i < self.spec_previous_members().len() ==> (
            #[trigger] self.spec_previous_members()[i]).keys@.len()
                == self.spec_params().member_size
    }

    /// Creates a new BRKGA instance with a random, scored, ranked initial
    /// population.
    pub fn new(decoder: &'a D, rng: R, params: Params) -> (r: Self)
        requires
            params.spec_wf(),
        ensures
            r.spec_wf(),
            r.spec_params() == params,
            r.spec_decoder() == *decoder,
            r.spec_generations() == 0,
            spec_scored(*decoder, r.spec_current_members()),
            spec_sorted_by(
                decoder.spec_problem().spec_objective(),
                r.spec_current_members(),
            ),
    {
        let mut rng = rng;
        let current = Population::new(params, &mut rng, decoder);
        let previous = current.duplicate();
        Self { decoder, rng, current, previous, generations: 0, params }
    }

    /// Performs the evolution of the population defined by the algorithm:
    ///
    /// 1. The elites are transferred verbatim to the next generation.
    /// 2. Crossover between elites and non-elites fills the regular slots.
    /// 3. The worst slots are replaced by random mutants.
    /// 4. Every member is rescored and the population is ranked again.
    ///
    /// Afterwards the population is sorted consistently with the problem's
    /// objective direction, every cached value matches its gene vector, the
    /// gene vector of every elite of the previous generation survives into
    /// the new one, and the generation counter has grown by one.
    pub fn evolve(&mut self)
        requires
            old(self).spec_wf(),
            old(self).spec_generations() < usize::MAX,
        ensures
            final(self).spec_wf(),
            final(self).spec_params() == old(self).spec_params(),
            final(self).spec_decoder() == old(self).spec_decoder(),
            final(self).spec_generations() == old(self).spec_generations() + 1,
            spec_scored(final(self).spec_decoder(), final(self).spec_current_members()),
            spec_sorted_by(
                final(self).spec_decoder().spec_problem().spec_objective(),
                final(self).spec_current_members(),
            ),
            forall|i: int|
                0 <= i < old(self).spec_params().elites ==> spec_keys_present(
                    final(self).spec_current_members(),
                    (#[trigger] old(self).spec_current_members()[i]).keys@,
                ),
    {
        self.current.transfer_elites(&mut self.previous, self.params);
        self.current.crossover(&mut self.previous, &mut self.rng, self.params);
        self.previous.mutate(&mut self.rng, self.params);
        let ghost bred = self.previous.spec_members();
        self.previous.compute_value(self.decoder, self.params);

        core::mem::swap(&mut self.current, &mut self.previous);
        self.generations = self.generations + 1;

        proof {
            assert forall|i: int| 0 <= i < old(self).spec_params().elites implies
                spec_keys_present(
                self.spec_current_members(),
                (#[trigger] old(self).spec_current_members()[i]).keys@,
            ) by {
                assert(bred[i].keys@ == old(self).spec_current_members()[i].keys@);
                assert(spec_keys_present(self.spec_current_members(), bred[i].keys@));
            }
        }
    }

    /// Resets the generation counter, as if the current population had just
    /// been bred.
    pub fn reset(&mut self)
        ensures
            final(self).spec_generations() == 1,
            final(self).spec_params() == old(self).spec_params(),
            final(self).spec_decoder() == old(self).spec_decoder(),
            final(self).spec_current_members() == old(self).spec_current_members(),
            final(self).spec_wf() == old(self).spec_wf(),
    {
        self.generations = 1;
    }

    /// The number of the current generation.
    pub fn current_generation(&self) -> (n: usize)
        ensures
            n == self.spec_generations(),
    {
        self.generations
    }

    /// The current population held by the algorithm.
    pub fn current_population(&self) -> (p: &Population)
        ensures
            p.spec_members() == self.spec_current_members(),
    {
        &self.current
    }

    /// A reference to the best member at this moment: the one ranked first.
    pub fn best(&self) -> (m: &Member)
        requires
            self.spec_wf(),
        ensures
            *m == self.spec_current_members()[0],
    {
        self.current.member(0)
    }

    /// Whether the whole state is valid, checked at run time. Every state
    /// built by [`Brkga::new`] is; the check only guards callers that
    /// bypassed its precondition.
    pub fn check_wf(&self) -> (r: bool)
        ensures
            r == self.spec_wf(),
    {
        self.params.wf() && self.current.conforms_to(self.params) && self.previous.conforms_to(
            self.params,
        )
    }
}

impl<'a, D: Decoder, R: RandomSource, SC: StopCriterion> Solver<SC> for Brkga<'a, D, R> {
    type P = D::P;

    closed spec fn spec_objective(&self) -> Objective {
        self.spec_decoder().spec_problem().spec_objective()
    }

    fn objective(&self) -> (o: Objective) {
        self.decoder.problem().objective()
    }

    /// One iteration is one generation: evolve, then evaluate the best
    /// member through the decoder and the problem's scoring function. On
    /// every valid state a candidate is owed, and it carries exactly the
    /// score of the solution the new best member decodes to.
    fn iterate(&mut self, _stop_criterion: &mut SC) -> (r: Option<
        Evaluation<<D::P as Problem>::Solution>,
    >)
        ensures
            old(self).spec_wf() && old(self).spec_generations() < usize::MAX ==> r is Some,
            r is Some ==> final(self).spec_wf() && final(self).spec_generations() == old(
                self,
            ).spec_generations() + 1 && spec_sorted_by(
                old(self).spec_decoder().spec_problem().spec_objective(),
                final(self).spec_current_members(),
            ) && spec_scored(old(self).spec_decoder(), final(self).spec_current_members())
                && (r->0).spec_value() == old(self).spec_decoder().spec_problem().spec_score(
                old(self).spec_decoder().spec_decode(
                    final(self).spec_current_members()[0].keys@,
                ),
            ) && (r->0).spec_value() == final(self).spec_current_members()[0].value,
    {
        if !self.check_wf() || self.generations == usize::MAX {
            return None;
        }
        self.evolve();

        let best = self.current.member(0);
        let solution = self.decoder.decode(best.keys.as_slice());
        let evaluation = self.decoder.problem().objective_function(solution);

        Some(evaluation)
    }
}

} // verus!
