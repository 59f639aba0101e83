//! The decoder abstraction of random-key genetic algorithms.

use crate::problem::Problem;
use vstd::prelude::*;

verus! {

/// An integer random key: the value `key` stands for the real number
/// `key / 2^64`, which lies in `[0, 1)`.
pub type RandomKey = u64;

/// The behavior random-key based algorithms need in order to discover the
/// value of a member of the population for the target [`Problem`].
///
/// Decoding is modelled by [`Decoder::spec_decode`], a deterministic
/// mathematical function of the gene vector alone, so that identical gene
/// vectors always decode to identical solutions.
pub trait Decoder: Sized {
    /// The problem being decoded.
    type P: Problem;

    /// The solution a gene vector decodes to, as a mathematical function.
    /// An implementation whose contracts are to be of use defines it; the
    /// default leaves it unspecified.
    open spec fn spec_decode(&self, member: Seq<RandomKey>) -> <Self::P as Problem>::Solution {
        arbitrary()
    }

    /// The problem instance, as a mathematical value. An implementation
    /// whose contracts are to be of use defines it; the default leaves it
    /// unspecified.
    open spec fn spec_problem(&self) -> Self::P {
        arbitrary()
    }

    /// The problem instance which is being decoded.
    fn problem(&self) -> (p: &Self::P)
        ensures
            *p == self.spec_problem(),
    ;

    /// Converts `member` into a solution for the problem.
    fn decode(&self, member: &[RandomKey]) -> (s: <Self::P as Problem>::Solution)
        ensures
            s == self.spec_decode(member@),
    ;

    /// The value of the solution that `member` decodes to.
    ///
    /// Law: decoding a gene vector and then scoring the resulting solution
    /// through the problem's scoring function yields exactly the value this
    /// method reports.
    fn decode_value(&self, member: &[RandomKey]) -> (v: i64)
        ensures
            v == self.spec_problem().spec_score(self.spec_decode(member@)),
    {
        let solution = self.decode(member);
        self.problem().objective_function(solution).value()
    }
}

} // verus!
