//! See [`IterCriterion`].

use super::{Progress, StopCriterion};
use vstd::prelude::*;

verus! {

/// The execution stops after a fixed number of iterations: the progress is
/// exactly `current_iter / max_iter`.
#[derive(Debug)]
pub struct IterCriterion {
    current_iter: usize,
    max_iter: usize,
}

impl IterCriterion {
    #[verifier::type_invariant]
    spec fn inv(&self) -> bool {
        self.max_iter > 0
    }

    /// The iteration bound this criterion was created with.
    pub closed spec fn spec_max_iter(&self) -> usize {
        self.max_iter
    }

    /// Creates a new iteration criterion, which stops as soon as `max_iter`
    /// iterations are performed.
    pub fn new(max_iter: usize) -> (r: Self)
        requires
            max_iter > 0,
        ensures
            r.spec_max_iter() == max_iter,
            r.spec_current_iter() == 0,
    {
        Self { max_iter, current_iter: 0 }
    }
}

impl StopCriterion for IterCriterion {
    closed spec fn spec_progress(&self) -> Progress {
        Progress {
            num: self.current_iter as u64,
            den: if self.max_iter > 0 {
                self.max_iter as u64
            } else {
                1u64
            },
        }
    }

    closed spec fn spec_current_iter(&self) -> usize {
        self.current_iter
    }

    proof fn lemma_progress_wf(&self)
        ensures
            self.spec_progress().wf(),
    {
    }

    fn progress(&self) -> (p: Progress)
        ensures
            p == self.spec_progress(),
    {
        proof {
            use_type_invariant(self);
        }
        Progress { num: self.current_iter as u64, den: self.max_iter as u64 }
    }

    fn update(&mut self, _new_value: i64)
        ensures
            final(self).spec_max_iter() == old(self).spec_max_iter(),
    {
        proof {
            use_type_invariant(&*self);
        }
        self.current_iter = self.current_iter + 1;
        proof {
            let a = old(self).spec_progress();
            let b = self.spec_progress();
            assert(a.num * b.den <= b.num * a.den) by (nonlinear_arith)
                requires
                    a.den == b.den,
                    a.num <= b.num,
            ;
        }
    }

    fn current_iter(&self) -> (n: usize)
        ensures
            n == self.spec_current_iter(),
    {
        self.current_iter
    }
}

/// Law: an iteration-bound criterion with bound `N` reports progress
/// `current_iter / N` exactly, and signals a stop precisely when the
/// iteration count has reached `N`.
pub proof fn lemma_iter_criterion_progress(c: &IterCriterion)
    requires
        c.spec_max_iter() > 0,
    ensures
        c.spec_progress() == (Progress {
            num: c.spec_current_iter() as u64,
            den: c.spec_max_iter() as u64,
        }),
        c.spec_progress().spec_ge_one() == (c.spec_current_iter() >= c.spec_max_iter()),
{
}

} // verus!
