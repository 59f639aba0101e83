//! Random selection of array elements without repetition. See
//! [`SelectionControl`].

use crate::random::RandomSource;
use vstd::prelude::*;

verus! {

/// How many entries of `s` are `false`: the elements still available for
/// selection.
pub open spec fn spec_unchosen_count(s: Seq<bool>) -> nat
    decreases s.len(),
{
    if s.len() == 0 {
        0
    } else {
        spec_unchosen_count(s.drop_last()) + if s.last() {
            0nat
        } else {
            1nat
        }
    }
}

proof fn lemma_unchosen_count_le_len(s: Seq<bool>)
    ensures
        spec_unchosen_count(s) <= s.len(),
    decreases s.len(),
{
    if s.len() > 0 {
        lemma_unchosen_count_le_len(s.drop_last());
    }
}

proof fn lemma_unchosen_count_update_true(s: Seq<bool>, i: int)
    requires
        0 <= i < s.len(),
        !s[i],
    ensures
        spec_unchosen_count(s.update(i, true)) + 1 == spec_unchosen_count(s),
    decreases s.len(),
{
    let t = s.update(i, true);
    if i == s.len() - 1 {
        assert(t.drop_last() =~= s.drop_last());
    } else {
        assert(t.drop_last() =~= s.drop_last().update(i, true));
        lemma_unchosen_count_update_true(s.drop_last(), i);
    }
}

/// An abstraction over random selection of elements of an array, each
/// element being selected at most once.
#[derive(Debug)]
pub struct SelectionControl {
    already_chosen: Vec<bool>,
    total_selected: usize,
}

impl SelectionControl {
    /// Well-formedness: the selection count matches the number of chosen
    /// entries. Established by [`SelectionControl::new`] and preserved by
    /// every method.
    pub closed spec fn wf(&self) -> bool {
        self.total_selected + spec_unchosen_count(self.already_chosen@)
            == self.already_chosen@.len()
    }

    /// Which elements have been selected so far.
    pub closed spec fn spec_chosen(&self) -> Seq<bool> {
        self.already_chosen@
    }

    /// How many elements have been selected so far.
    pub closed spec fn spec_total_selected(&self) -> usize {
        self.total_selected
    }

    /// Initializes the selection over `quantity` elements, none of them
    /// selected yet.
    pub fn new(quantity: usize) -> (r: Self)
        ensures
            r.wf(),
            r.spec_chosen().len() == quantity,
            forall|i: int| 0 <= i < quantity ==> !r.spec_chosen()[i],
            r.spec_total_selected() == 0,
    {
        let mut already_chosen: Vec<bool> = Vec::new();
        let mut i: usize = 0;
        while i < quantity
            invariant
                i <= quantity,
                already_chosen@.len() == i,
                forall|j: int| 0 <= j < i ==> !already_chosen@[j],
                spec_unchosen_count(already_chosen@) == i,
            decreases quantity - i,
        {
            let ghost prev = already_chosen@;
            already_chosen.push(false);
            proof {
                assert(already_chosen@.drop_last() =~= prev);
                assert(!already_chosen@.last());
            }
            i = i + 1;
        }
        Self { already_chosen, total_selected: 0 }
    }

    /// Selects an element not selected before, uniformly among those still
    /// available, or `None` once every element has been selected.
    pub fn next<R: RandomSource>(&mut self, rng: &mut R) -> (r: Option<usize>)
        requires
            old(self).wf(),
        ensures
            final(self).wf(),
            final(self).spec_chosen().len() == old(self).spec_chosen().len(),
            match r {
                Some(i) => i < old(self).spec_chosen().len() && !old(self).spec_chosen()[i as int]
                    && final(self).spec_chosen() == old(self).spec_chosen().update(i as int, true)
                    && final(self).spec_total_selected() == old(self).spec_total_selected() + 1,
                None => (forall|j: int|
                    0 <= j < old(self).spec_chosen().len() ==> old(self).spec_chosen()[j])
                    && *final(self) == *old(self),
            },
    {
        let len = self.already_chosen.len();

        if self.total_selected >= len {
            proof {
                lemma_unchosen_count_le_len(self.already_chosen@);
                assert forall|j: int| 0 <= j < self.already_chosen@.len() implies self
                    .already_chosen@[j] by {
                    lemma_all_chosen_when_none_unchosen(self.already_chosen@, j);
                }
            }
            return None;
        }

        let remaining = len - self.total_selected;
        let target = rng.below(remaining);

        let ghost s = self.already_chosen@;
        let mut i: usize = 0;
        let mut passed: usize = 0;
        loop
            invariant
                s == self.already_chosen@,
                s == old(self).spec_chosen(),
                self.total_selected == old(self).spec_total_selected(),
                self.total_selected + spec_unchosen_count(s) == s.len(),
                i <= s.len(),
                i < len ==> i < s.len(),
                len == s.len(),
                passed <= target,
                target < spec_unchosen_count(s),
                passed == spec_unchosen_count(s.take(i as int)),
            decreases s.len() - i,
        {
            proof {
                if i == s.len() {
                    assert(s.take(i as int) =~= s);
                    assert(false);
                }
            }
            if i < len {
                let unchosen = !self.already_chosen[i];
                proof {
                    let t1 = s.take(i as int + 1);
                    assert(t1.drop_last() =~= s.take(i as int));
                    assert(t1.last() == s[i as int]);
                }
                if unchosen && passed == target {
                    self.mark_as_selected(i);
                    return Some(i);
                }
                if unchosen {
                    proof {
                        lemma_unchosen_prefix_bound(s, i as int + 1);
                    }
                    passed = passed + 1;
                }
                i = i + 1;
            }
        }
    }

    /// Marks `element` as selected.
    fn mark_as_selected(&mut self, element: usize)
        requires
            old(self).wf(),
            element < old(self).spec_chosen().len(),
            !old(self).spec_chosen()[element as int],
            old(self).spec_total_selected() < old(self).spec_chosen().len(),
        ensures
            final(self).wf(),
            final(self).spec_chosen() == old(self).spec_chosen().update(element as int, true),
            final(self).spec_total_selected() == old(self).spec_total_selected() + 1,
    {
        let bound = self.already_chosen.len();
        proof {
            lemma_unchosen_count_update_true(self.already_chosen@, element as int);
            assert(self.total_selected < bound);
        }
        self.already_chosen.set(element, true);
        self.total_selected = self.total_selected + 1;
    }
}

/// When no element is left unchosen, every element is chosen.
proof fn lemma_all_chosen_when_none_unchosen(s: Seq<bool>, j: int)
    requires
        spec_unchosen_count(s) == 0,
        0 <= j < s.len(),
    ensures
        s[j],
    decreases s.len(),
{
    if j == s.len() - 1 {
    } else {
        lemma_all_chosen_when_none_unchosen(s.drop_last(), j);
    }
}

/// The unchosen entries of a prefix are no more than those of the whole.
proof fn lemma_unchosen_prefix_bound(s: Seq<bool>, i: int)
    requires
        0 <= i <= s.len(),
    ensures
        spec_unchosen_count(s.take(i)) <= spec_unchosen_count(s),
    decreases s.len() - i,
{
    if i == s.len() {
        assert(s.take(i) =~= s);
    } else {
        lemma_unchosen_prefix_bound(s, i + 1);
        let t1 = s.take(i + 1);
        assert(t1.drop_last() =~= s.take(i));
        assert(t1.last() == s[i]);
    }
}

} // verus!
