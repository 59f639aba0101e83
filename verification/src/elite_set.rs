//! A bounded collection of the best evaluations seen so far, with eviction of
//! the worst member and rejection of duplicates. See [`EliteSet`].

use crate::problem::{spec_compare_values, Comparison, Evaluation, Objective};
use vstd::prelude::*;
use vstd::std_specs::cmp::PartialEqSpec;

verus! {

/// Anything that exposes a score. [`Evaluation`] is the canonical instance.
pub trait Score {
    /// The score, as a mathematical value. An implementation whose
    /// contracts are to be of use defines it; the default leaves it
    /// unspecified.
    open spec fn spec_score_value(&self) -> i64 {
        arbitrary()
    }

    /// The score of `self`.
    fn score(&self) -> (v: i64)
        ensures
            v == self.spec_score_value(),
    ;
}

impl<S> Score for Evaluation<S> {
    open spec fn spec_score_value(&self) -> i64 {
        self.spec_value()
    }

    fn score(&self) -> (v: i64)
        ensures
            v == self.spec_score_value(),
    {
        self.value()
    }
}

/// The index of the worst element of `s` under `objective`: the first index
/// whose value no other element is worse than.
pub open spec fn spec_worst_index<S>(objective: Objective, s: Seq<Evaluation<S>>) -> int
    recommends
        s.len() > 0,
    decreases s.len(),
{
    if s.len() <= 1 {
        0
    } else {
        let w = spec_worst_index(objective, s.drop_last());
        if spec_compare_values(objective, s.last().spec_value(), s[w].spec_value())
            == Comparison::Worse {
            s.len() - 1
        } else {
            w
        }
    }
}

/// What it means for `v` to be the value of the worst member of `s`: some
/// member has value `v`, and no member's value is worse than `v`.
pub open spec fn spec_is_worst_value<S>(
    objective: Objective,
    s: Seq<Evaluation<S>>,
    v: i64,
) -> bool {
    &&& exists|i: int| 0 <= i < s.len() && (#[trigger] s[i]).spec_value() == v
    &&& forall|i: int|
        0 <= i < s.len() ==> spec_compare_values(objective, (#[trigger] s[i]).spec_value(), v)
            != Comparison::Worse
}

/// The worst index is in range, no element is worse than the element it
/// points at, and every element before it is strictly better.
pub proof fn lemma_worst_index_props<S>(objective: Objective, s: Seq<Evaluation<S>>)
    requires
        s.len() > 0,
    ensures
        0 <= spec_worst_index(objective, s) < s.len(),
        forall|j: int|
            0 <= j < s.len() ==> spec_compare_values(
                objective,
                (#[trigger] s[j]).spec_value(),
                s[spec_worst_index(objective, s)].spec_value(),
            ) != Comparison::Worse,
        forall|j: int|
            0 <= j < spec_worst_index(objective, s) ==> spec_compare_values(
                objective,
                (#[trigger] s[j]).spec_value(),
                s[spec_worst_index(objective, s)].spec_value(),
            ) == Comparison::Better,
    decreases s.len(),
{
    if s.len() > 1 {
        lemma_worst_index_props(objective, s.drop_last());
        assert(forall|j: int| 0 <= j < s.len() - 1 ==> s[j] == s.drop_last()[j]);
    }
}

/// A bounded set holding at most `capacity` of the best evaluations seen,
/// in insertion order.
///
/// `worse_value` is the eviction threshold: a candidate must be strictly
/// better than it to enter. While the set is not yet full the threshold stays
/// at the initial value given at construction and every member is strictly
/// better than it; once the set is full the threshold always equals the value
/// of the worst member.
pub struct EliteSet<S> {
    elements: Vec<Evaluation<S>>,
    worse_value: i64,
    objective: Objective,
    capacity: usize,
}

impl<S> EliteSet<S> {
    #[verifier::type_invariant]
    spec fn inv(&self) -> bool {
        &&& self.capacity > 0
        &&& self.elements@.len() <= self.capacity
        &&& if self.elements@.len() < self.capacity {
            forall|i: int|
                0 <= i < self.elements@.len() ==> spec_compare_values(
                    self.objective,
                    (#[trigger] self.elements@[i]).spec_value(),
                    self.worse_value,
                ) == Comparison::Better
        } else {
            spec_is_worst_value(self.objective, self.elements@, self.worse_value)
        }
    }

    /// The members currently held, in insertion order.
    pub closed spec fn spec_elements(&self) -> Seq<Evaluation<S>> {
        self.elements@
    }

    /// The capacity the set was created with.
    pub closed spec fn spec_capacity(&self) -> usize {
        self.capacity
    }

    /// The objective direction the set was created with.
    pub closed spec fn spec_objective(&self) -> Objective {
        self.objective
    }

    /// The current eviction threshold.
    pub closed spec fn spec_worse_value(&self) -> i64 {
        self.worse_value
    }

    /// Creates an empty elite set with room for `size` members; a candidate
    /// enters only if it is strictly better than the threshold, initially
    /// `initial_threshold`, under `objective`.
    pub fn new(objective: Objective, size: usize, initial_threshold: i64) -> (r: Self)
        requires
            size > 0,
        ensures
            r.spec_elements() == Seq::<Evaluation<S>>::empty(),
            r.spec_capacity() == size,
            r.spec_objective() == objective,
            r.spec_worse_value() == initial_threshold,
    {
        let r = Self { elements: Vec::new(), worse_value: initial_threshold, objective, capacity: size };
        proof {
            assert(r.spec_elements() =~= Seq::<Evaluation<S>>::empty());
        }
        r
    }

    /// How many members the set currently holds; never more than the
    /// capacity.
    pub fn len(&self) -> (n: usize)
        ensures
            n == self.spec_elements().len(),
            n <= self.spec_capacity(),
    {
        proof {
            use_type_invariant(self);
        }
        self.elements.len()
    }

    /// The first index of `elements` no other element is worse than, under
    /// `objective`, or `None` if `elements` is empty.
    fn worst_position_of(objective: Objective, elements: &Vec<Evaluation<S>>) -> (r: Option<
        usize,
    >)
        ensures
            match r {
                Some(i) => elements@.len() > 0 && i < elements@.len() && i == spec_worst_index(
                    objective,
                    elements@,
                ),
                None => elements@.len() == 0,
            },
    {
        if elements.len() == 0 {
            return None;
        }

        let ghost s = elements@;
        let mut position: usize = 0;
        let mut idx: usize = 1;
        while idx < elements.len()
            invariant
                1 <= idx <= s.len(),
                s == elements@,
                position == spec_worst_index(objective, s.take(idx as int)),
            decreases s.len() - idx,
        {
            proof {
                lemma_worst_index_props(objective, s.take(idx as int));
            }
            let c = crate::problem::compare_values(
                objective,
                elements[idx].value(),
                elements[position].value(),
            );
            proof {
                let t1 = s.take(idx as int + 1);
                assert(t1.drop_last() =~= s.take(idx as int));
                assert(t1.last() == s[idx as int]);
            }
            if c == Comparison::Worse {
                position = idx;
            }
            idx = idx + 1;
        }
        proof {
            assert(s.take(s.len() as int) =~= s);
            lemma_worst_index_props(objective, s);
        }
        Some(position)
    }
}

impl<S: PartialEq + PartialEqSpec> EliteSet<S> {
    /// Whether some member carries the same value as `candidate` and a
    /// solution equal to its solution.
    pub open spec fn spec_has_duplicate(&self, candidate: &Evaluation<S>) -> bool {
        exists|i: int|
            0 <= i < self.spec_elements().len() && (#[trigger] self.spec_elements()[i]).spec_value()
                == candidate.spec_value() && self.spec_elements()[i].spec_solution().eq_spec(
                &candidate.spec_solution(),
            )
    }

    /// Offers `candidate` to the set.
    ///
    /// The candidate is rejected, and returned unchanged, when it is not
    /// strictly better than the current threshold or when a member with an
    /// equal solution already exists. Otherwise it is appended while the set
    /// is not yet full, and replaces the worst member once the set is full;
    /// whenever the set ends up full the threshold becomes the value of its
    /// worst member.
    pub fn try_insert(&mut self, candidate: Evaluation<S>) -> (r: Result<(), Evaluation<S>>)
        requires
            S::obeys_eq_spec(),
        ensures
            final(self).spec_capacity() == old(self).spec_capacity(),
            final(self).spec_objective() == old(self).spec_objective(),
            final(self).spec_elements().len() <= final(self).spec_capacity(),
            spec_compare_values(
                old(self).spec_objective(),
                candidate.spec_value(),
                old(self).spec_worse_value(),
            ) != Comparison::Better ==> r == Err::<(), Evaluation<S>>(candidate) && *final(self)
                == *old(self),
            spec_compare_values(
                old(self).spec_objective(),
                candidate.spec_value(),
                old(self).spec_worse_value(),
            ) == Comparison::Better && old(self).spec_has_duplicate(&candidate) ==> r == Err::<
                (),
                Evaluation<S>,
            >(candidate) && *final(self) == *old(self),
            spec_compare_values(
                old(self).spec_objective(),
                candidate.spec_value(),
                old(self).spec_worse_value(),
            ) == Comparison::Better && !old(self).spec_has_duplicate(&candidate) ==> r == Ok::<
                (),
                Evaluation<S>,
            >(()) && if old(self).spec_elements().len() < old(self).spec_capacity() {
                final(self).spec_elements() == old(self).spec_elements().push(candidate) && if old(
                    self,
                ).spec_elements().len() + 1 == old(self).spec_capacity() {
                    spec_is_worst_value(
                        old(self).spec_objective(),
                        final(self).spec_elements(),
                        final(self).spec_worse_value(),
                    )
                } else {
                    final(self).spec_worse_value() == old(self).spec_worse_value()
                }
            } else {
                final(self).spec_elements() == old(self).spec_elements().update(
                    spec_worst_index(old(self).spec_objective(), old(self).spec_elements()),
                    candidate,
                ) && spec_is_worst_value(
                    old(self).spec_objective(),
                    final(self).spec_elements(),
                    final(self).spec_worse_value(),
                )
            },
    {
        proof {
            use_type_invariant(&*self);
        }
        let c = candidate.compare_value(self.objective, self.worse_value);
        if c != Comparison::Better {
            return Err(candidate);
        }

        let ghost s = self.elements@;
        let mut i: usize = 0;
        while i < self.elements.len()
            invariant
                i <= s.len(),
                s == self.elements@,
                S::obeys_eq_spec(),
                forall|j: int|
                    0 <= j < i ==> !((#[trigger] s[j]).spec_value() == candidate.spec_value()
                        && s[j].spec_solution().eq_spec(&candidate.spec_solution())),
            decreases s.len() - i,
        {
            if self.elements[i].value() == candidate.value() && *self.elements[i].solution()
                == *candidate.solution() {
                proof {
                    use_type_invariant(&*self);
                }
                return Err(candidate);
            }
            i = i + 1;
        }

        self.insert(candidate);
        Ok(())
    }

    /// Places an accepted candidate: appends it while the set is not full,
    /// and replaces the worst member once it is.
    fn insert(&mut self, new: Evaluation<S>)
        requires
            spec_compare_values(
                old(self).spec_objective(),
                new.spec_value(),
                old(self).spec_worse_value(),
            ) == Comparison::Better,
        ensures
            final(self).spec_capacity() == old(self).spec_capacity(),
            final(self).spec_objective() == old(self).spec_objective(),
            final(self).spec_elements().len() <= final(self).spec_capacity(),
            if old(self).spec_elements().len() < old(self).spec_capacity() {
                final(self).spec_elements() == old(self).spec_elements().push(new) && if old(
                    self,
                ).spec_elements().len() + 1 == old(self).spec_capacity() {
                    spec_is_worst_value(
                        old(self).spec_objective(),
                        final(self).spec_elements(),
                        final(self).spec_worse_value(),
                    )
                } else {
                    final(self).spec_worse_value() == old(self).spec_worse_value()
                }
            } else {
                final(self).spec_elements() == old(self).spec_elements().update(
                    spec_worst_index(old(self).spec_objective(), old(self).spec_elements()),
                    new,
                ) && spec_is_worst_value(
                    old(self).spec_objective(),
                    final(self).spec_elements(),
                    final(self).spec_worse_value(),
                )
            },
    {
        proof {
            use_type_invariant(&*self);
        }
        let full = self.elements.len() == self.capacity;
        let mut elements: Vec<Evaluation<S>> = Vec::new();
        std::mem::swap(&mut elements, &mut self.elements);

        if full {
            let min_position = match Self::worst_position_of(self.objective, &elements) {
                Some(p) => p,
                None => {
                    proof {
                        assert(false);
                    }
                    0
                },
            };
            elements.set(min_position, new);
            let worst = match Self::worst_position_of(self.objective, &elements) {
                Some(p) => p,
                None => {
                    proof {
                        assert(false);
                    }
                    0
                },
            };
            proof {
                lemma_worst_index_props(self.objective, elements@);
            }
            self.worse_value = elements[worst].value();
        } else {
            elements.push(new);
            if elements.len() == self.capacity {
                let worst = match Self::worst_position_of(self.objective, &elements) {
                    Some(p) => p,
                    None => {
                        proof {
                            assert(false);
                        }
                        0
                    },
                };
                proof {
                    lemma_worst_index_props(self.objective, elements@);
                }
                self.worse_value = elements[worst].value();
            }
        }
        self.elements = elements;
    }
}

impl<S> EliteSet<S> {
    /// The best member: a member no other member is strictly better than, or
    /// `None` if the set is empty.
    pub fn best(&self) -> (r: Option<&Evaluation<S>>)
        ensures
            match r {
                Some(e) => (exists|i: int|
                    0 <= i < self.spec_elements().len() && (#[trigger] self.spec_elements()[i])
                        == *e) && forall|j: int|
                    0 <= j < self.spec_elements().len() ==> spec_compare_values(
                        self.spec_objective(),
                        (#[trigger] self.spec_elements()[j]).spec_value(),
                        e.spec_value(),
                    ) != Comparison::Better,
                None => self.spec_elements().len() == 0,
            },
    {
        if self.elements.len() == 0 {
            return None;
        }

        let ghost s = self.elements@;
        let mut best: usize = 0;
        let mut idx: usize = 1;
        while idx < self.elements.len()
            invariant
                1 <= idx <= s.len(),
                s == self.elements@,
                best < idx,
                forall|j: int|
                    0 <= j < idx ==> spec_compare_values(
                        self.spec_objective(),
                        (#[trigger] s[j]).spec_value(),
                        s[best as int].spec_value(),
                    ) != Comparison::Better,
            decreases s.len() - idx,
        {
            let c = crate::problem::compare_values(
                self.objective,
                self.elements[best].value(),
                self.elements[idx].value(),
            );
            if c != Comparison::Better {
                best = idx;
            }
            idx = idx + 1;
        }
        Some(&self.elements[best])
    }

    /// The worst member: the member at the position reported by the internal
    /// scan, or `None` if the set is empty.
    pub fn worse(&self) -> (r: Option<&Evaluation<S>>)
        ensures
            match r {
                Some(e) => self.spec_elements().len() > 0 && *e == self.spec_elements()[
                    spec_worst_index(self.spec_objective(), self.spec_elements())],
                None => self.spec_elements().len() == 0,
            },
    {
        match Self::worst_position_of(self.objective, &self.elements) {
            Some(pos) => Some(&self.elements[pos]),
            None => None,
        }
    }

    /// A read-only cursor over the members in insertion order.
    pub fn iter(&self) -> (it: EliteIter<'_, S>)
        ensures
            it.spec_position() == 0,
            it.spec_remaining_source() == self.spec_elements(),
    {
        EliteIter { elite: self, position: 0 }
    }
}

/// A read-only cursor over the members of an [`EliteSet`], in insertion
/// order.
pub struct EliteIter<'a, S> {
    elite: &'a EliteSet<S>,
    position: usize,
}

impl<'a, S> EliteIter<'a, S> {
    /// How many members have been handed out so far.
    pub closed spec fn spec_position(&self) -> usize {
        self.position
    }

    /// The members the cursor walks over.
    pub closed spec fn spec_remaining_source(&self) -> Seq<Evaluation<S>> {
        self.elite.spec_elements()
    }

    /// The next member in insertion order, or `None` once all members have
    /// been handed out.
    pub fn next(&mut self) -> (r: Option<&'a Evaluation<S>>)
        ensures
            final(self).spec_remaining_source() == old(self).spec_remaining_source(),
            match r {
                Some(e) => old(self).spec_position() < old(self).spec_remaining_source().len()
                    && *e == old(self).spec_remaining_source()[old(self).spec_position() as int]
                    && final(self).spec_position() == old(self).spec_position() + 1,
                None => old(self).spec_position() >= old(self).spec_remaining_source().len()
                    && *final(self) == *old(self),
            },
    {
        if self.position < self.elite.elements.len() {
            let e = &self.elite.elements[self.position];
            self.position = self.position + 1;
            Some(e)
        } else {
            None
        }
    }
}

} // verus!
