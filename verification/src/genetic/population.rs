//! The [`Population`] of gene vectors a genetic algorithm evolves, and its
//! [`Member`]s.

use super::brkga::Params;
use super::decoder::{Decoder, RandomKey};
use crate::problem::{compare_values, spec_compare_values, Comparison, Objective, Problem};
use crate::random::RandomSource;
use vstd::multiset::Multiset;
use vstd::prelude::*;
use vstd::seq_lib::group_to_multiset_ensures;

verus! {

/// A vector of random keys which represents a solution to a problem,
/// together with the value obtained by decoding it.
#[derive(Debug)]
pub struct Member {
    /// The gene vector.
    pub keys: Vec<RandomKey>,
    /// The value obtained by decoding `keys`.
    pub value: i64,
}

impl Member {
    /// The number of genes in the member.
    pub fn len(&self) -> (n: usize)
        ensures
            n == self.keys@.len(),
    {
        self.keys.len()
    }
}

/// Whether two members carry the same genes and the same value.
pub open spec fn spec_member_eq(a: Member, b: Member) -> bool {
    a.keys@ == b.keys@ && a.value == b.value
}

/// A sequence of members ranked from best to worst: no member is worse than
/// a member that comes after it, under `objective`.
pub open spec fn spec_sorted_by(objective: Objective, s: Seq<Member>) -> bool {
    forall|i: int, j: int|
        0 <= i < j < s.len() ==> spec_compare_values(
            objective,
            (#[trigger] s[i]).value,
            (#[trigger] s[j]).value,
        ) != Comparison::Worse
}

/// Every member's cached value is exactly what its gene vector decodes to.
pub open spec fn spec_scored<D: Decoder>(decoder: D, s: Seq<Member>) -> bool {
    forall|i: int|
        0 <= i < s.len() ==> (#[trigger] s[i]).value == decoder.spec_problem().spec_score(
            decoder.spec_decode(s[i].keys@),
        )
}

/// Every gene of `child` comes from `elite` or from `other`, position by
/// position.
pub open spec fn spec_child_of(child: Member, elite: Member, other: Member) -> bool {
    forall|g: int|
        0 <= g < child.keys@.len() ==> (#[trigger] child.keys@[g]) == elite.keys@[g]
            || child.keys@[g] == other.keys@[g]
}

/// `child` was bred from the pool: it is the child of one of the pool's
/// first `elites` members and one member of the rest of the pool.
pub open spec fn spec_has_parents(pool: Seq<Member>, elites: int, child: Member) -> bool {
    exists|e: int, n: int|
        0 <= e < elites && elites <= n < pool.len() && spec_child_of(child, pool[e], pool[n])
}

/// Some member of `s` carries exactly the gene vector `keys`.
pub open spec fn spec_keys_present(s: Seq<Member>, keys: Seq<RandomKey>) -> bool {
    exists|j: int| 0 <= j < s.len() && (#[trigger] s[j]).keys@ == keys
}

/// Law: in a ranked population the first member is a best one — no member
/// is strictly better than it.
pub proof fn lemma_ranked_head_is_best(objective: Objective, s: Seq<Member>)
    requires
        spec_sorted_by(objective, s),
        s.len() > 0,
    ensures
        forall|i: int|
            0 <= i < s.len() ==> spec_compare_values(
                objective,
                (#[trigger] s[i]).value,
                s[0].value,
            ) != Comparison::Better,
{
}

/// An exact copy of a gene vector.
fn copy_keys(src: &Vec<RandomKey>) -> (r: Vec<RandomKey>)
    ensures
        r@ == src@,
{
    let mut r: Vec<RandomKey> = Vec::new();
    let mut i: usize = 0;
    while i < src.len()
        invariant
            i <= src@.len(),
            r@ == src@.take(i as int),
        decreases src@.len() - i,
    {
        r.push(src[i]);
        proof {
            assert(r@ =~= src@.take(i as int + 1));
        }
        i = i + 1;
    }
    proof {
        assert(src@.take(src@.len() as int) =~= src@);
    }
    r
}

/// A fresh gene vector of `len` keys drawn from `rng`.
fn random_keys<R: RandomSource>(rng: &mut R, len: usize) -> (r: Vec<RandomKey>)
    ensures
        r@.len() == len,
{
    let mut r: Vec<RandomKey> = Vec::new();
    let mut i: usize = 0;
    while i < len
        invariant
            i <= len,
            r@.len() == i,
        decreases len - i,
    {
        r.push(rng.next_key());
        i = i + 1;
    }
    r
}

/// A list of members ranked by their value, from the best to the worst.
#[derive(Debug)]
pub struct Population {
    members: Vec<Member>,
}

impl Population {
    /// The members, best first once sorted.
    pub closed spec fn spec_members(&self) -> Seq<Member> {
        self.members@
    }

    /// Shape agreement with `params`: one member per population slot, each
    /// with one gene per chromosome position.
    pub open spec fn spec_wf(&self, params: Params) -> bool {
        &&& self.spec_members().len() == params.population_size
        &&& forall|i: int|
            0 <= i < self.spec_members().len() ==> (#[trigger] self.spec_members()[i]).keys@.len()
                == params.member_size
    }

    /// Generates a new population of randomly drawn members, each scored by
    /// `decoder`, ranked best first. An empty population or an empty
    /// chromosome is a construction error.
    pub fn new<R: RandomSource, D: Decoder>(params: Params, rng: &mut R, decoder: &D) -> (r: Self)
        requires
            params.population_size > 0,
            params.member_size > 0,
        ensures
            r.spec_wf(params),
            spec_scored(*decoder, r.spec_members()),
            spec_sorted_by(decoder.spec_problem().spec_objective(), r.spec_members()),
    {
        let mut members: Vec<Member> = Vec::new();
        let mut i: usize = 0;
        while i < params.population_size
            invariant
                i <= params.population_size,
                members@.len() == i,
                forall|j: int|
                    0 <= j < i ==> (#[trigger] members@[j]).keys@.len() == params.member_size,
                forall|j: int|
                    0 <= j < i ==> (#[trigger] members@[j]).value
                        == decoder.spec_problem().spec_score(
                        decoder.spec_decode(members@[j].keys@),
                    ),
            decreases params.population_size - i,
        {
            let keys = random_keys(rng, params.member_size);
            let value = decoder.decode_value(keys.as_slice());
            members.push(Member { keys, value });
            i = i + 1;
        }

        let mut population = Self { members };
        let objective = decoder.problem().objective();
        let ghost before = population.spec_members();
        population.sort(objective);
        proof {
            assert forall|i: int| 0 <= i < population.spec_members().len() implies (
            #[trigger] population.spec_members()[i]).keys@.len() == params.member_size && population
                .spec_members()[i].value == decoder.spec_problem().spec_score(
                decoder.spec_decode(population.spec_members()[i].keys@),
            ) by {
                let j = choose|j: int|
                    0 <= j < before.len() && before[j] == population.spec_members()[i];
            }
        }
        population
    }

    /// Number of members of `self`.
    pub fn size(&self) -> (n: usize)
        ensures
            n == self.spec_members().len(),
    {
        self.members.len()
    }

    /// Whether the population's shape agrees with `params`, checked at run
    /// time.
    pub fn conforms_to(&self, params: Params) -> (r: bool)
        ensures
            r == self.spec_wf(params),
    {
        if self.members.len() != params.population_size {
            return false;
        }

        let mut i: usize = 0;
        while i < self.members.len()
            invariant
                i <= self.spec_members().len(),
                forall|j: int|
                    0 <= j < i ==> (#[trigger] self.spec_members()[j]).keys@.len()
                        == params.member_size,
            decreases self.spec_members().len() - i,
        {
            if self.members[i].len() != params.member_size {
                return false;
            }
            i = i + 1;
        }
        true
    }

    /// Number of genes in a member of `self`.
    pub fn member_size(&self) -> (n: usize)
        requires
            self.spec_members().len() > 0,
        ensures
            n == self.spec_members()[0].keys@.len(),
    {
        self.members[0].len()
    }

    /// The member at `index`.
    pub fn member(&self, index: usize) -> (m: &Member)
        requires
            index < self.spec_members().len(),
        ensures
            *m == self.spec_members()[index as int],
    {
        &self.members[index]
    }

    /// Sorts the population from the best member to the worst, under
    /// `objective`, keeping exactly the same members. The insertion sort is
    /// stable: members of equal value keep their relative order, which is
    /// what lets transferred elites stay ahead of equally valued offspring.
    pub fn sort(&mut self, objective: Objective)
        ensures
            final(self).spec_members().len() == old(self).spec_members().len(),
            final(self).spec_members().to_multiset() == old(self).spec_members().to_multiset(),
            spec_sorted_by(objective, final(self).spec_members()),
            forall|i: int|
                0 <= i < final(self).spec_members().len() ==> old(self).spec_members().contains(
                    #[trigger] final(self).spec_members()[i],
                ),
    {
        broadcast use group_to_multiset_ensures;

        let ghost orig = self.members@;
        let mut source: Vec<Member> = Vec::new();
        core::mem::swap(&mut source, &mut self.members);
        let mut ranked: Vec<Member> = Vec::new();

        while source.len() > 0
            invariant
                spec_sorted_by(objective, ranked@),
                ranked@.to_multiset().add(source@.to_multiset()) =~= orig.to_multiset(),
                ranked@.len() + source@.len() == orig.len(),
            decreases source@.len(),
        {
            let ghost source_before = source@;
            let m = match source.pop() {
                Some(m) => m,
                None => {
                    proof {
                        assert(false);
                    }
                    continue ;
                },
            };
            proof {
                assert(source_before =~= source@.push(m));
                vstd::seq_lib::to_multiset_build(source@, m);
                assert(source_before.to_multiset() =~= source@.to_multiset().insert(m));
            }

            let mut p: usize = 0;
            while p < ranked.len() && compare_values(objective, ranked[p].value, m.value)
                == Comparison::Better
                invariant
                    p <= ranked@.len(),
                    forall|t: int|
                        0 <= t < p ==> spec_compare_values(
                            objective,
                            (#[trigger] ranked@[t]).value,
                            m.value,
                        ) == Comparison::Better,
                decreases ranked@.len() - p,
            {
                p = p + 1;
            }

            let ghost ranked_before = ranked@;
            ranked.insert(p, m);
            proof {
                vstd::seq_lib::to_multiset_insert(ranked_before, p as int, m);
                assert forall|i: int, j: int| 0 <= i < j < ranked@.len() implies spec_compare_values(
                    objective,
                    (#[trigger] ranked@[i]).value,
                    (#[trigger] ranked@[j]).value,
                ) != Comparison::Worse by {
                    if j == p {
                        assert(ranked@[i] == ranked_before[i]);
                    } else if i == p && j > p {
                        if p < ranked_before.len() {
                            assert(spec_compare_values(
                                objective,
                                ranked_before[p as int].value,
                                m.value,
                            ) != Comparison::Better);
                        }
                        assert(ranked@[j] == ranked_before[j - 1]);
                    } else if i < p && j > p {
                        assert(ranked@[i] == ranked_before[i]);
                        assert(ranked@[j] == ranked_before[j - 1]);
                    } else if i > p {
                        assert(ranked@[i] == ranked_before[i - 1]);
                        assert(ranked@[j] == ranked_before[j - 1]);
                    }
                }
            }
        }

        self.members = ranked;

        proof {
            assert(source@.to_multiset() =~= Multiset::<Member>::empty());
            assert(self.members@.to_multiset() =~= orig.to_multiset());
            assert forall|i: int| 0 <= i < self.members@.len() implies orig.contains(
                #[trigger] self.members@[i],
            ) by {
                vstd::seq_lib::to_multiset_contains(self.members@, self.members@[i]);
                vstd::seq_lib::to_multiset_contains(orig, self.members@[i]);
                assert(self.members@.to_multiset().count(self.members@[i]) > 0);
                assert(orig.to_multiset().count(self.members@[i]) > 0);
            }
        }
    }

    /// Copies the best `params.elites` members of `self` verbatim into the
    /// first slots of `next`, leaving its other slots untouched.
    pub fn transfer_elites(&self, next: &mut Self, params: Params)
        requires
            self.spec_wf(params),
            old(next).spec_wf(params),
            params.spec_wf(),
        ensures
            final(next).spec_wf(params),
            forall|i: int|
                0 <= i < params.elites ==> spec_member_eq(
                    #[trigger] final(next).spec_members()[i],
                    self.spec_members()[i],
                ),
            forall|i: int|
                params.elites <= i < final(next).spec_members().len()
                    ==> final(next).spec_members()[i] == old(next).spec_members()[i],
    {
        let mut idx: usize = 0;
        while idx < params.elites
            invariant
                idx <= params.elites,
                params.spec_wf(),
                self.spec_wf(params),
                next.spec_members().len() == params.population_size,
                forall|i: int|
                    0 <= i < next.spec_members().len() ==> (
                    #[trigger] next.spec_members()[i]).keys@.len() == params.member_size,
                forall|i: int|
                    0 <= i < idx ==> spec_member_eq(
                        #[trigger] next.spec_members()[i],
                        self.spec_members()[i],
                    ),
                forall|i: int|
                    params.elites <= i < next.spec_members().len() ==> next.spec_members()[i]
                        == old(next).spec_members()[i],
            decreases params.elites - idx,
        {
            let elite = &self.members[idx];
            let member = Member { keys: copy_keys(&elite.keys), value: elite.value };
            next.members.set(idx, member);
            idx = idx + 1;
        }
    }

    /// Fills every regular slot of `next` with a child of one elite parent
    /// and one non-elite parent of `self`, both drawn from `rng`: each gene
    /// comes from the elite parent when a fresh random key is at most
    /// `params.crossover_bias`, else from the other parent.
    pub fn crossover<R: RandomSource>(&self, next: &mut Self, rng: &mut R, params: Params)
        requires
            self.spec_wf(params),
            old(next).spec_wf(params),
            params.spec_wf(),
        ensures
            final(next).spec_wf(params),
            forall|i: int|
                params.elites <= i < params.population_size - params.mutants
                    ==> spec_has_parents(
                    self.spec_members(),
                    params.elites as int,
                    #[trigger] final(next).spec_members()[i],
                ),
            forall|i: int|
                0 <= i < params.elites ==> final(next).spec_members()[i] == old(
                    next,
                ).spec_members()[i],
            forall|i: int|
                params.population_size - params.mutants <= i < final(next).spec_members().len()
                    ==> final(next).spec_members()[i] == old(next).spec_members()[i],
    {
        let regular_end = params.population_size - params.mutants;
        let ghost mut parents: Seq<(int, int)> = Seq::empty();
        let mut idx: usize = params.elites;
        while idx < regular_end
            invariant
                params.elites <= idx <= regular_end,
                regular_end == params.population_size - params.mutants,
                params.spec_wf(),
                self.spec_wf(params),
                next.spec_members().len() == params.population_size,
                forall|i: int|
                    0 <= i < next.spec_members().len() ==> (
                    #[trigger] next.spec_members()[i]).keys@.len() == params.member_size,
                parents.len() == idx - params.elites,
                forall|i: int|
                    0 <= i < parents.len() ==> 0 <= (#[trigger] parents[i]).0 < params.elites
                        && params.elites <= parents[i].1 < params.population_size
                        && spec_child_of(
                        next.spec_members()[params.elites + i],
                        self.spec_members()[parents[i].0],
                        self.spec_members()[parents[i].1],
                    ),
                forall|i: int|
                    0 <= i < params.elites ==> next.spec_members()[i] == old(
                        next,
                    ).spec_members()[i],
                forall|i: int|
                    regular_end <= i < next.spec_members().len() ==> next.spec_members()[i] == old(
                        next,
                    ).spec_members()[i],
            decreases regular_end - idx,
        {
            let elite_parent = rng.below(params.elites);
            let non_elite_parent = params.elites + rng.below(
                params.population_size - params.elites,
            );

            let mut keys: Vec<RandomKey> = Vec::new();
            let mut gene: usize = 0;
            while gene < params.member_size
                invariant
                    gene <= params.member_size,
                    keys@.len() == gene,
                    elite_parent < params.elites,
                    params.elites <= non_elite_parent < params.population_size,
                    params.spec_wf(),
                    self.spec_wf(params),
                    forall|g: int|
                        0 <= g < gene ==> (#[trigger] keys@[g]) == self.spec_members()[elite_parent as int].keys@[g]
                            || keys@[g] == self.spec_members()[non_elite_parent as int].keys@[g],
                decreases params.member_size - gene,
            {
                let key = if rng.next_key() <= params.crossover_bias {
                    self.members[elite_parent].keys[gene]
                } else {
                    self.members[non_elite_parent].keys[gene]
                };
                keys.push(key);
                gene = gene + 1;
            }

            let value = next.members[idx].value;
            next.members.set(idx, Member { keys, value });
            proof {
                let e = elite_parent as int;
                let n = non_elite_parent as int;
                assert(spec_child_of(
                    next.spec_members()[idx as int],
                    self.spec_members()[e],
                    self.spec_members()[n],
                ));
                parents = parents.push((e, n));
            }
            idx = idx + 1;
        }

        proof {
            assert forall|i: int|
                params.elites <= i < params.population_size - params.mutants implies
                spec_has_parents(
                self.spec_members(),
                params.elites as int,
                #[trigger] next.spec_members()[i],
            ) by {
                let pair = parents[i - params.elites];
                assert(0 <= pair.0 < params.elites && params.elites <= pair.1
                    < params.population_size);
                assert(spec_child_of(
                    next.spec_members()[i],
                    self.spec_members()[pair.0],
                    self.spec_members()[pair.1],
                ));
            }
        }
    }

    /// Overwrites the worst `params.mutants` slots with freshly drawn
    /// random members, ignoring parents entirely; their cached values are
    /// stale until the next scoring pass.
    pub fn mutate<R: RandomSource>(&mut self, rng: &mut R, params: Params)
        requires
            old(self).spec_wf(params),
            params.spec_wf(),
        ensures
            final(self).spec_wf(params),
            forall|i: int|
                0 <= i < params.population_size - params.mutants ==> final(self).spec_members()[i]
                    == old(self).spec_members()[i],
    {
        let mutant_start = params.population_size - params.mutants;
        let mut idx: usize = mutant_start;
        while idx < params.population_size
            invariant
                mutant_start <= idx <= params.population_size,
                mutant_start == params.population_size - params.mutants,
                self.spec_members().len() == params.population_size,
                forall|i: int|
                    0 <= i < self.spec_members().len() ==> (
                    #[trigger] self.spec_members()[i]).keys@.len() == params.member_size,
                forall|i: int|
                    0 <= i < mutant_start ==> self.spec_members()[i] == old(
                        self,
                    ).spec_members()[i],
            decreases params.population_size - idx,
        {
            let keys = random_keys(rng, params.member_size);
            let value = self.members[idx].value;
            self.members.set(idx, Member { keys, value });
            idx = idx + 1;
        }
    }

    /// Recomputes every member's value through `decoder` and ranks the
    /// population again, best first; the gene vectors themselves all
    /// survive.
    pub fn compute_value<D: Decoder>(&mut self, decoder: &D, params: Params)
        requires
            old(self).spec_wf(params),
        ensures
            final(self).spec_wf(params),
            spec_scored(*decoder, final(self).spec_members()),
            spec_sorted_by(
                decoder.spec_problem().spec_objective(),
                final(self).spec_members(),
            ),
            forall|i: int|
                0 <= i < old(self).spec_members().len() ==> spec_keys_present(
                    final(self).spec_members(),
                    (#[trigger] old(self).spec_members()[i]).keys@,
                ),
    {
        let ghost initial = self.spec_members();
        let mut i: usize = 0;
        while i < self.members.len()
            invariant
                i <= self.spec_members().len(),
                self.spec_members().len() == params.population_size,
                initial.len() == params.population_size,
                forall|j: int|
                    0 <= j < self.spec_members().len() ==> (
                    #[trigger] self.spec_members()[j]).keys@.len() == params.member_size,
                forall|j: int|
                    0 <= j < self.spec_members().len() ==> (
                    #[trigger] self.spec_members()[j]).keys@ == initial[j].keys@,
                forall|j: int|
                    0 <= j < i ==> (#[trigger] self.spec_members()[j]).value
                        == decoder.spec_problem().spec_score(
                        decoder.spec_decode(self.spec_members()[j].keys@),
                    ),
            decreases self.spec_members().len() - i,
        {
            let keys = copy_keys(&self.members[i].keys);
            let value = decoder.decode_value(keys.as_slice());
            self.members.set(i, Member { keys, value });
            i = i + 1;
        }

        let objective = decoder.problem().objective();
        let ghost before = self.spec_members();
        self.sort(objective);
        proof {
            assert forall|i: int| 0 <= i < self.spec_members().len() implies (
            #[trigger] self.spec_members()[i]).keys@.len() == params.member_size && self
                .spec_members()[i].value == decoder.spec_problem().spec_score(
                decoder.spec_decode(self.spec_members()[i].keys@),
            ) by {
                let j = choose|j: int|
                    0 <= j < before.len() && before[j] == self.spec_members()[i];
            }
            assert forall|i: int| 0 <= i < initial.len() implies spec_keys_present(
                self.spec_members(),
                (#[trigger] initial[i]).keys@,
            ) by {
                vstd::seq_lib::to_multiset_contains(before, before[i]);
                vstd::seq_lib::to_multiset_contains(self.members@, before[i]);
                assert(before.contains(before[i]));
                assert(before.to_multiset().count(before[i]) > 0);
                assert(self.members@.contains(before[i]));
                let j = choose|j: int|
                    0 <= j < self.members@.len() && self.members@[j] == before[i];
                assert(self.spec_members()[j].keys@ == initial[i].keys@);
            }
        }
    }

    /// Replaces every member by a freshly drawn random one, scored and
    /// ranked again: the population starts over.
    pub fn reset<R: RandomSource, D: Decoder>(
        &mut self,
        rng: &mut R,
        decoder: &D,
        params: Params,
    )
        requires
            old(self).spec_wf(params),
        ensures
            final(self).spec_wf(params),
            spec_scored(*decoder, final(self).spec_members()),
            spec_sorted_by(
                decoder.spec_problem().spec_objective(),
                final(self).spec_members(),
            ),
    {
        let mut idx: usize = 0;
        while idx < self.members.len()
            invariant
                idx <= self.spec_members().len(),
                self.spec_members().len() == params.population_size,
                forall|i: int|
                    0 <= i < self.spec_members().len() ==> (
                    #[trigger] self.spec_members()[i]).keys@.len() == params.member_size,
            decreases self.spec_members().len() - idx,
        {
            let keys = random_keys(rng, params.member_size);
            let value = self.members[idx].value;
            self.members.set(idx, Member { keys, value });
            idx = idx + 1;
        }
        self.compute_value(decoder, params);
    }

    /// An exact copy of the population, member by member.
    pub fn duplicate(&self) -> (r: Self)
        ensures
            r.spec_members().len() == self.spec_members().len(),
            forall|i: int|
                0 <= i < r.spec_members().len() ==> spec_member_eq(
                    #[trigger] r.spec_members()[i],
                    self.spec_members()[i],
                ),
    {
        let mut members: Vec<Member> = Vec::new();
        let mut i: usize = 0;
        while i < self.members.len()
            invariant
                i <= self.spec_members().len(),
                members@.len() == i,
                forall|j: int|
                    0 <= j < i ==> spec_member_eq(
                        #[trigger] members@[j],
                        self.spec_members()[j],
                    ),
            decreases self.spec_members().len() - i,
        {
            let m = &self.members[i];
            members.push(Member { keys: copy_keys(&m.keys), value: m.value });
            i = i + 1;
        }
        Self { members }
    }
}

} // verus!
