//! Basic hook implementations for [`Solver`][super::Solver].
//!
//! It is recommended to create hook traits for concrete metaheuristics too,
//! so that callers can add custom behavior to them.

use crate::problem::{Evaluation, Problem};
use vstd::prelude::*;

verus! {

/// Hooks into special moments of a solver's execution, for side effects
/// such as logging. Every method is a documented no-op by default.
pub trait IterHook<P: Problem>: Sized {
    /// Called right after an iteration; `new` is the candidate the iteration
    /// produced.
    fn iterated(&mut self, new: &Evaluation<P::Solution>) {
        let _ = new;
    }

    /// Called when the running best is about to be replaced by a strictly
    /// better candidate.
    fn better_changed(
        &mut self,
        old_best: &Evaluation<P::Solution>,
        new_best: &Evaluation<P::Solution>,
    ) {
        let _ = old_best;
        let _ = new_best;
    }
}

/// A hook that does nothing.
pub struct Empty;

impl<P: Problem> IterHook<P> for Empty {

}

impl<P: Problem> super::LifeCycle<P> for Empty {

}

} // verus!
