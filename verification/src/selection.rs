//! The selection of items in the list of events.

use crate::utils::ordered;
use vstd::prelude::*;

verus! {

/// Whether every element of `s` is smaller than the one after it.
pub open spec fn strictly_ascending(s: Seq<usize>) -> bool {
    forall|i: int, j: int| 0 <= i < j < s.len() ==> s[i] < s[j]
}

/// The index after `index`, which stays where it is at the largest number.
pub open spec fn index_after(index: usize) -> usize {
    if index < usize::MAX {
        (index + 1) as usize
    } else {
        index
    }
}

/// The index before `index`, which stays where it is at 0.
pub open spec fn index_before(index: usize) -> usize {
    if index > 0 {
        (index - 1) as usize
    } else {
        index
    }
}

/// Whether `m` is in `s` and nothing in `s` is smaller.
pub open spec fn is_least(s: Set<usize>, m: usize) -> bool {
    s.contains(m) && forall|i: usize| s.contains(i) ==> m <= i
}

/// Whether `m` is in `s` and nothing in `s` is larger.
pub open spec fn is_greatest(s: Set<usize>, m: usize) -> bool {
    s.contains(m) && forall|i: usize| s.contains(i) ==> i <= m
}

/// The smallest element of a set that has one.
pub open spec fn least(s: Set<usize>) -> usize {
    choose|m: usize| is_least(s, m)
}

/// The largest element of a set that has one.
pub open spec fn greatest(s: Set<usize>) -> usize {
    choose|m: usize| is_greatest(s, m)
}

/// The first of a selection: its smallest index, if it has any.
pub open spec fn first_of(s: Set<usize>) -> Option<usize> {
    if s == Set::<usize>::empty() {
        None
    } else {
        Some(least(s))
    }
}

/// The last of a selection: its largest index, if it has any.
pub open spec fn last_of(s: Set<usize>) -> Option<usize> {
    if s == Set::<usize>::empty() {
        None
    } else {
        Some(greatest(s))
    }
}

/// Every index between `a` and `b`, both included, whichever is the larger.
pub open spec fn span(a: usize, b: usize) -> Set<usize> {
    Set::new(|i: usize| (a <= i <= b) || (b <= i <= a))
}

/// The selection after a click with the shift key down on `index`: all from
/// the first that was selected, or from 0 where nothing was, to `index`.
pub open spec fn expanded(s: Set<usize>, index: usize) -> Set<usize> {
    match first_of(s) {
        Some(first) => span(first, index),
        None => span(0, index),
    }
}

/// A set has at most one least element.
pub proof fn lemma_least_is_unique(s: Set<usize>, m: usize)
    requires
        is_least(s, m),
    ensures
        least(s) == m,
        s != Set::<usize>::empty(),
{
    let c = least(s);
    assert(is_least(s, c));
}

/// A set has at most one greatest element.
pub proof fn lemma_greatest_is_unique(s: Set<usize>, m: usize)
    requires
        is_greatest(s, m),
    ensures
        greatest(s) == m,
        s != Set::<usize>::empty(),
{
    let c = greatest(s);
    assert(is_greatest(s, c));
}

/// The indices of the list items that are selected: a set, kept in
/// ascending order.
#[derive(Debug)]
pub struct ItemSelectionState {
    selected_indices: Vec<usize>,
}

impl View for ItemSelectionState {
    type V = Set<usize>;

    closed spec fn view(&self) -> Set<usize> {
        self.selected_indices@.to_set()
    }
}

impl ItemSelectionState {
    #[verifier::type_invariant]
    spec fn ascending(self) -> bool {
        strictly_ascending(self.selected_indices@)
    }

    /// The selection that holds nothing.
    pub fn new() -> (r: Self)
        ensures
            r@ == Set::<usize>::empty(),
    {
        let r = ItemSelectionState { selected_indices: Vec::new() };
        assert(r.selected_indices@.to_set() =~= Set::<usize>::empty());
        r
    }

    /// Makes `index` the only selected item.
    pub fn select(&mut self, index: usize)
        ensures
            final(self)@ == set![index],
    {
        let mut indices: Vec<usize> = Vec::new();
        indices.push(index);
        assert(indices@.to_set() =~= set![index]) by {
            assert(indices@[0] == index);
        }
        self.selected_indices = indices;
    }

    pub fn is_selected(&self, index: usize) -> (r: bool)
        ensures
            r == self@.contains(index),
    {
        let mut i: usize = 0;
        while i < self.selected_indices.len()
            invariant
                i <= self.selected_indices.len(),
                forall|k: int| 0 <= k < i ==> self.selected_indices@[k] != index,
            decreases self.selected_indices.len() - i,
        {
            if self.selected_indices[i] == index {
                return true;
            }
            i += 1;
        }
        false
    }

    /// The smallest selected index.
    pub fn get_first_selected(&self) -> (r: Option<usize>)
        ensures
            r == first_of(self@),
            r matches Some(first) ==> is_least(self@, first),
    {
        proof {
            use_type_invariant(self);
        }
        if self.selected_indices.len() == 0 {
            assert(self.selected_indices@.to_set() =~= Set::<usize>::empty());
            None
        } else {
            let first = self.selected_indices[0];
            assert(self.selected_indices@.contains(first));
            assert(self@.contains(first));
            proof {
                lemma_least_is_unique(self@, first);
            }
            Some(first)
        }
    }

    /// The largest selected index.
    pub fn get_last_selected(&self) -> (r: Option<usize>)
        ensures
            r == last_of(self@),
            r matches Some(last) ==> is_greatest(self@, last),
    {
        proof {
            use_type_invariant(self);
        }
        let n = self.selected_indices.len();
        if n == 0 {
            assert(self.selected_indices@.to_set() =~= Set::<usize>::empty());
            None
        } else {
            let last = self.selected_indices[n - 1];
            assert(self.selected_indices@.contains(last));
            assert(self@.contains(last));
            proof {
                lemma_greatest_is_unique(self@, last);
            }
            Some(last)
        }
    }

    /// The selected indices in ascending order.
    pub fn iter(&self) -> (r: Vec<usize>)
        ensures
            strictly_ascending(r@),
            r@.to_set() == self@,
    {
        proof {
            use_type_invariant(self);
        }
        let r = self.selected_indices.clone();
        assert(r@ =~= self.selected_indices@);
        r
    }

    /// Empties the selection.
    pub fn unselect(&mut self)
        ensures
            final(self)@ == Set::<usize>::empty(),
    {
        let indices: Vec<usize> = Vec::new();
        assert(indices@.to_set() =~= Set::<usize>::empty());
        self.selected_indices = indices;
    }

    /// Replaces the selection by every index between the first that was
    /// selected and `index`, both included, whichever of the two is the
    /// larger. Where nothing was selected, 0 stands for the first.
    pub fn expand_to(&mut self, index: usize)
        ensures
            final(self)@ == expanded(old(self)@, index),
    {
        let first_selected = match self.get_first_selected() {
            Some(first) => first,
            None => 0,
        };
        let (start, end) = ordered((first_selected, index));
        assert(start <= end && ((start == first_selected && end == index) || (start == index
            && end == first_selected)));
        let mut indices: Vec<usize> = Vec::new();
        let mut next: usize = start;
        while next < end
            invariant
                start <= next <= end,
                indices@.len() == next - start,
                forall|k: int| 0 <= k < indices@.len() ==> indices@[k] == start + k,
            decreases end - next,
        {
            indices.push(next);
            next += 1;
        }
        indices.push(end);
        assert(indices@.to_set() =~= span(first_selected, index)) by {
            assert forall|i: usize| start <= i <= end implies indices@.to_set().contains(i) by {
                assert(indices@[i - start] == i);
            }
        }
        self.selected_indices = indices;
    }

    /// Adds `index` to the selection.
    pub fn add_item_to_selection(&mut self, index: usize)
        ensures
            final(self)@ == old(self)@.insert(index),
    {
        proof {
            use_type_invariant(&*self);
        }
        let n = self.selected_indices.len();
        let mut at: usize = 0;
        while at < n && self.selected_indices[at] < index
            invariant
                n == self.selected_indices.len(),
                at <= n,
                forall|k: int| 0 <= k < at ==> self.selected_indices@[k] < index,
            decreases n - at,
        {
            at += 1;
        }
        if at < n && self.selected_indices[at] == index {
            assert(self.selected_indices@.contains(self.selected_indices@[at as int]));
            assert(self@.insert(index) =~= self@);
        } else {
            let ghost before = self.selected_indices@;
            let mut indices = self.selected_indices.clone();
            assert(indices@ =~= before);
            indices.insert(at, index);
            assert(indices@ == before.insert(at as int, index));
            assert(strictly_ascending(indices@)) by {
                assert forall|i: int, j: int| 0 <= i < j < indices@.len() implies indices@[i]
                    < indices@[j] by {
                    if j < at {
                    } else if i < at && j == at {
                    } else if i < at {
                        assert(indices@[j] == before[j - 1]);
                        assert(before[at as int] <= before[j - 1]);
                    } else if i == at {
                        assert(indices@[j] == before[j - 1]);
                        assert(before[at as int] <= before[j - 1]);
                    } else {
                        assert(indices@[i] == before[i - 1]);
                        assert(indices@[j] == before[j - 1]);
                    }
                }
            }
            assert(indices@.to_set() =~= before.to_set().insert(index)) by {
                assert forall|x: usize| before.to_set().insert(index).contains(x) implies indices@.contains(x) by {
                    if x == index {
                        assert(indices@[at as int] == x);
                    } else {
                        let k = choose|k: int| 0 <= k < before.len() && before[k] == x;
                        if k < at {
                            assert(indices@[k] == x);
                        } else {
                            assert(indices@[k + 1] == x);
                        }
                    }
                }
                assert forall|x: usize| indices@.contains(x) implies before.to_set().insert(index).contains(x) by {
                    let k = choose|k: int| 0 <= k < indices@.len() && indices@[k] == x;
                    if k < at {
                        assert(before[k] == x);
                    } else if k == at {
                    } else {
                        assert(before[k - 1] == x);
                    }
                }
            }
            self.selected_indices = indices;
        }
    }
}

} // verus!
