//! See [`CriterionCombiner`].

use super::{lemma_greater_of_ge_one, lemma_greater_of_monotonic, Progress, StopCriterion};
use vstd::prelude::*;

verus! {

/// Takes two criteria and combines them, finishing as soon as either of them
/// finishes.
///
/// The progress is the larger of the two inner ratios, and the iteration
/// count is the larger of the two inner counts (both criteria receive every
/// update, so the counts stay in step when the combination is built from
/// freshly created criteria).
pub struct CriterionCombiner<A, B> {
    a: A,
    b: B,
}

impl<A: StopCriterion, B: StopCriterion> CriterionCombiner<A, B> {
    /// The first inner criterion.
    pub closed spec fn spec_first(&self) -> A {
        self.a
    }

    /// The second inner criterion.
    pub closed spec fn spec_second(&self) -> B {
        self.b
    }

    /// Creates a new criterion combiner based on `a` and `b`.
    pub fn new(a: A, b: B) -> (r: Self)
        ensures
            r.spec_first() == a,
            r.spec_second() == b,
    {
        Self { a, b }
    }
}

impl<A: StopCriterion, B: StopCriterion> StopCriterion for CriterionCombiner<A, B> {
    closed spec fn spec_progress(&self) -> Progress {
        Progress::spec_greater_of(self.a.spec_progress(), self.b.spec_progress())
    }

    closed spec fn spec_current_iter(&self) -> usize {
        if self.a.spec_current_iter() >= self.b.spec_current_iter() {
            self.a.spec_current_iter()
        } else {
            self.b.spec_current_iter()
        }
    }

    proof fn lemma_progress_wf(&self)
        ensures
            self.spec_progress().wf(),
    {
        self.a.lemma_progress_wf();
        self.b.lemma_progress_wf();
    }

    fn progress(&self) -> (p: Progress)
        ensures
            p == self.spec_progress(),
    {
        Progress::greater_of(self.a.progress(), self.b.progress())
    }

    fn update(&mut self, new_value: i64) {
        self.a.update(new_value);
        self.b.update(new_value);
        proof {
            old(self).a.lemma_progress_wf();
            old(self).b.lemma_progress_wf();
            self.a.lemma_progress_wf();
            self.b.lemma_progress_wf();
            lemma_greater_of_monotonic(
                old(self).a.spec_progress(),
                old(self).b.spec_progress(),
                self.a.spec_progress(),
                self.b.spec_progress(),
            );
        }
    }

    fn current_iter(&self) -> (n: usize)
        ensures
            n == self.spec_current_iter(),
    {
        let na = self.a.current_iter();
        let nb = self.b.current_iter();
        if na >= nb {
            na
        } else {
            nb
        }
    }
}

/// Law: the combination's progress is the larger of the two inner
/// criteria's progress ratios.
pub proof fn lemma_combiner_progress_is_greater_of<A: StopCriterion, B: StopCriterion>(
    c: &CriterionCombiner<A, B>,
)
    ensures
        c.spec_progress() == Progress::spec_greater_of(
            c.spec_first().spec_progress(),
            c.spec_second().spec_progress(),
        ),
{
}

/// Law: a combination of two criteria signals a stop exactly when either
/// inner criterion would signal one.
pub proof fn lemma_combiner_stops_iff_either<A: StopCriterion, B: StopCriterion>(
    c: &CriterionCombiner<A, B>,
)
    ensures
        c.spec_progress().spec_ge_one() == (c.spec_first().spec_progress().spec_ge_one()
            || c.spec_second().spec_progress().spec_ge_one()),
{
    c.a.lemma_progress_wf();
    c.b.lemma_progress_wf();
    lemma_greater_of_ge_one(c.a.spec_progress(), c.b.spec_progress());
}

} // verus!
