use vstd::prelude::*;

verus! {

/// What a storage block holds, as mathematics: the capacity recorded in its
/// header and the live elements `[0, length)` that follow it.
pub struct Block<T> {
    pub elems: Seq<T>,
    pub capacity: nat,
}

/// The capacity taken when one slot more than `cap` is needed: the first
/// allocation holds one element, every later one doubles, and the size stops
/// at the largest count a `usize` can hold.
pub open spec fn grown_capacity(cap: nat) -> nat {
    if cap == 0 {
        1
    } else if 2 * cap <= usize::MAX {
        2 * cap
    } else {
        usize::MAX as nat
    }
}

/// `s` with each maximal run of adjacent elements that `same` relates collapsed
/// into its first member. `same(x, k)` is asked of each element `x` and of the
/// last element `k` kept before it.
pub open spec fn dedup_runs<T>(s: Seq<T>, same: spec_fn(T, T) -> bool) -> Seq<T>
    decreases s.len(),
{
    if s.len() == 0 {
        Seq::empty()
    } else {
        let kept = dedup_runs(s.drop_last(), same);
        if kept.len() > 0 && same(s.last(), kept.last()) {
            kept
        } else {
            kept.push(s.last())
        }
    }
}

impl<T> Block<T> {
    /// A block with no live elements and the given capacity.
    pub open spec fn empty(capacity: nat) -> Block<T> {
        Block { elems: Seq::empty(), capacity }
    }

    pub open spec fn len(self) -> nat {
        self.elems.len()
    }

    /// The header's invariant: the live elements fit in the capacity, and the
    /// capacity fits in a `usize`.
    pub open spec fn wf(self) -> bool {
        self.elems.len() <= self.capacity <= usize::MAX
    }

    /// The capacity after one element is added: unchanged while a slot is
    /// free, grown otherwise.
    pub open spec fn capacity_for_one_more(self) -> nat {
        if self.len() < self.capacity {
            self.capacity
        } else {
            grown_capacity(self.capacity)
        }
    }

    /// The capacity after growing, in one step, to hold `needed` elements.
    pub open spec fn capacity_for(self, needed: nat) -> nat {
        if needed <= self.capacity {
            self.capacity
        } else {
            needed
        }
    }

    pub open spec fn push(self, v: T) -> Block<T> {
        Block { elems: self.elems.push(v), capacity: self.capacity_for_one_more() }
    }

    pub open spec fn insert(self, i: int, v: T) -> Block<T> {
        Block { elems: self.elems.insert(i, v), capacity: self.capacity_for_one_more() }
    }

    pub open spec fn remove(self, i: int) -> Block<T> {
        Block { elems: self.elems.remove(i), capacity: self.capacity }
    }

    pub open spec fn update(self, i: int, v: T) -> Block<T> {
        Block { elems: self.elems.update(i, v), capacity: self.capacity }
    }

    /// The block after collapsing runs of adjacent elements related by `same`.
    pub open spec fn dedup_by(self, same: spec_fn(T, T) -> bool) -> Block<T> {
        Block { elems: dedup_runs(self.elems, same), capacity: self.capacity }
    }

    /// The block after pushing each of `vals`, in order.
    pub open spec fn push_all(self, vals: Seq<T>) -> Block<T>
        decreases vals.len(),
    {
        if vals.len() == 0 {
            self
        } else {
            self.push_all(vals.drop_last()).push(vals.last())
        }
    }
}

} // verus!
