use vstd::prelude::*;

use vstd::std_specs::cmp::PartialEqSpec;

use crate::block::{dedup_runs, grown_capacity, Block};
use crate::laws::lemma_push_all;

verus! {

/// The metadata kept in front of the elements.
pub struct Header {
    pub length: usize,
    pub capacity: usize,
}

/// A growable array: a header recording length and capacity, and the element
/// storage that the header describes.
pub struct MiniVec<T> {
    header: Header,
    slots: Vec<T>,
}

impl<T> View for MiniVec<T> {
    type V = Block<T>;

    closed spec fn view(&self) -> Block<T> {
        Block { elems: self.slots@, capacity: self.header.capacity as nat }
    }
}

/// The capacity to grow to when a block of capacity `cap` is full.
fn next_capacity(cap: usize) -> (r: usize)
    ensures
        r == grown_capacity(cap as nat),
{
    if cap == 0 {
        1
    } else if cap <= usize::MAX / 2 {
        cap * 2
    } else {
        usize::MAX
    }
}

/// The elements of `v` in reverse order.
fn into_reversed<T>(v: Vec<T>) -> (r: Vec<T>)
    ensures
        r@.len() == v@.len(),
        forall|i: int| 0 <= i < v@.len() ==> #[trigger] r@[i] == v@[v@.len() - 1 - i],
{
    let ghost s = v@;
    let mut rest = v;
    let mut r: Vec<T> = Vec::with_capacity(rest.len());
    while rest.len() > 0
        invariant
            rest@ == s.take(rest@.len() as int),
            r@.len() + rest@.len() == s.len(),
            forall|i: int| 0 <= i < r@.len() ==> #[trigger] r@[i] == s[s.len() - 1 - i],
        decreases rest@.len(),
    {
        let x = rest.pop().unwrap();
        r.push(x);
        assert(rest@ =~= s.take(rest@.len() as int));
    }
    r
}

/// `f` answers for every pair of elements as `rel` does.
pub open spec fn answers_as<T, F: Fn(&T, &T) -> bool>(f: F, rel: spec_fn(T, T) -> bool) -> bool {
    forall|x: &T, k: &T, b: bool| #[trigger] f.ensures((x, k), b) ==> b == rel(*x, *k)
}

impl<T> MiniVec<T> {
    /// The header agrees with the storage it describes.
    pub closed spec fn header_matches(&self) -> bool {
        self.header.length == self.slots@.len()
    }

    pub open spec fn wf(&self) -> bool {
        &&& self.header_matches()
        &&& self@.wf()
    }

    /// Assembles a container from a header and the storage it describes.
    pub(crate) fn from_header(header: Header, slots: Vec<T>) -> (r: Self)
        requires
            header.length == slots@.len(),
            header.length <= header.capacity,
        ensures
            r.wf(),
            r@ == (Block { elems: slots@, capacity: header.capacity as nat }),
    {
        MiniVec { header, slots }
    }

    /// Takes a container apart into its header and its storage.
    pub(crate) fn into_header(self) -> (r: (Header, Vec<T>))
        requires
            self.wf(),
        ensures
            r.0.length == r.1@.len(),
            r.1@ == self@.elems,
            r.0.capacity == self@.capacity,
    {
        (self.header, self.slots)
    }

    /// An empty container; nothing is allocated.
    pub fn new() -> (r: Self)
        ensures
            r.wf(),
            r@ == Block::<T>::empty(0),
    {
        let r = MiniVec { header: Header { length: 0, capacity: 0 }, slots: Vec::new() };
        assert(r@.elems =~= Seq::<T>::empty());
        r
    }

    /// An empty container with room for `capacity` elements.
    pub fn with_capacity(capacity: usize) -> (r: Self)
        ensures
            r.wf(),
            r@ == Block::<T>::empty(capacity as nat),
    {
        let r = MiniVec {
            header: Header { length: 0, capacity },
            slots: Vec::with_capacity(capacity),
        };
        assert(r@.elems =~= Seq::<T>::empty());
        r
    }

    pub fn len(&self) -> (r: usize)
        requires
            self.wf(),
        ensures
            r == self@.len(),
    {
        self.header.length
    }

    pub fn capacity(&self) -> (r: usize)
        requires
            self.wf(),
        ensures
            r == self@.capacity,
    {
        self.header.capacity
    }

    pub fn is_empty(&self) -> (r: bool)
        requires
            self.wf(),
        ensures
            r == (self@.len() == 0),
    {
        self.header.length == 0
    }

    /// The live elements, in order.
    pub fn as_slice(&self) -> (r: &[T])
        requires
            self.wf(),
        ensures
            r@ == self@.elems,
    {
        self.slots.as_slice()
    }

    /// Makes room for one more element, growing the allocation when it is full.
    fn reserve_one(&mut self)
        requires
            old(self).wf(),
            old(self)@.len() < usize::MAX,
        ensures
            final(self).wf(),
            final(self)@ == (Block { elems: old(self)@.elems, capacity: old(self)@.capacity_for_one_more() }),
            final(self)@.len() < final(self)@.capacity,
    {
        if self.header.length == self.header.capacity {
            let cap = next_capacity(self.header.capacity);
            self.slots.reserve(cap - self.header.length);
            self.header.capacity = cap;
        }
    }

    /// Appends `value` after the last element.
    pub fn push(&mut self, value: T)
        requires
            old(self).wf(),
            old(self)@.len() < usize::MAX,
        ensures
            final(self).wf(),
            final(self)@ == old(self)@.push(value),
    {
        self.reserve_one();
        self.slots.push(value);
        self.header.length = self.header.length + 1;
    }

    /// Takes the last element out, or gives `None` when there is none.
    pub fn pop(&mut self) -> (r: Option<T>)
        requires
            old(self).wf(),
        ensures
            final(self).wf(),
            old(self)@.len() == 0 ==> r is None && final(self)@ == old(self)@,
            old(self)@.len() > 0 ==> r == Some(old(self)@.elems.last()) && final(self)@ == (Block {
                elems: old(self)@.elems.drop_last(),
                capacity: old(self)@.capacity,
            }),
    {
        if self.header.length == 0 {
            None
        } else {
            let r = self.slots.pop();
            self.header.length = self.header.length - 1;
            r
        }
    }

    /// Puts `value` at `index`, shifting the elements from `index` on one
    /// place to the right; at `index == len` this appends.
    pub fn insert(&mut self, index: usize, value: T)
        requires
            old(self).wf(),
            index <= old(self)@.len(),
            old(self)@.len() < usize::MAX,
        ensures
            final(self).wf(),
            final(self)@ == old(self)@.insert(index as int, value),
            index == old(self)@.len() ==> final(self)@ == old(self)@.push(value),
    {
        self.reserve_one();
        self.slots.insert(index, value);
        self.header.length = self.header.length + 1;
        assert(index == old(self)@.len() ==> old(self)@.elems.insert(index as int, value) =~= old(self)@.elems.push(value));
    }

    /// Takes out the element at `index`, shifting those after it one place
    /// to the left.
    pub fn remove(&mut self, index: usize) -> (r: T)
        requires
            old(self).wf(),
            index < old(self)@.len(),
        ensures
            final(self).wf(),
            r == old(self)@.elems[index as int],
            final(self)@ == old(self)@.remove(index as int),
    {
        let r = self.slots.remove(index);
        self.header.length = self.header.length - 1;
        r
    }

    /// Builds a container by pushing the elements of `v` in order.
    pub fn from_vec(v: Vec<T>) -> (r: Self)
        ensures
            r.wf(),
            r@ == Block::<T>::empty(0).push_all(v@),
            r@.elems == v@,
    {
        let ghost s = v@;
        let n = v.len();
        let mut stack = into_reversed(v);
        let mut r = MiniVec::new();
        while stack.len() > 0
            invariant
                r.wf(),
                stack@.len() <= n == s.len(),
                r@.len() == n - stack@.len(),
                r@ == Block::<T>::empty(0).push_all(s.take(n - stack@.len())),
                forall|i: int| 0 <= i < stack@.len() ==> #[trigger] stack@[i] == s[n - 1 - i],
            decreases stack@.len(),
        {
            let ghost m = n - stack@.len();
            let x = stack.pop().unwrap();
            r.push(x);
            assert(s.take(m + 1).drop_last() =~= s.take(m));
        }
        assert(s.take(n as int) =~= s);
        proof {
            lemma_push_all(Block::<T>::empty(0), s);
            assert(Seq::<T>::empty() + s =~= s);
        }
        r
    }

    /// Collapses each run of adjacent elements for which `same_bucket(x, k)`
    /// holds, `k` being the last element kept before `x`, into its first
    /// member. The removed elements are dropped; the capacity stays. The
    /// result is stated for every relation that the answers of `same_bucket`
    /// follow.
    pub fn dedup_by<F: Fn(&T, &T) -> bool>(&mut self, same_bucket: F)
        requires
            old(self).wf(),
            forall|x: &T, k: &T| #[trigger] same_bucket.requires((x, k)),
        ensures
            final(self).wf(),
            forall|rel: spec_fn(T, T) -> bool|
                answers_as(same_bucket, rel) ==> final(self)@ == #[trigger] old(self)@.dedup_by(rel),
    {
        let ghost s = self.slots@;
        let n = self.header.length;
        let mut taken: Vec<T> = Vec::new();
        std::mem::swap(&mut self.slots, &mut taken);
        let mut stack = into_reversed(taken);
        let mut kept: Vec<T> = Vec::with_capacity(self.header.capacity);
        while stack.len() > 0
            invariant
                stack@.len() <= n == s.len(),
                kept@.len() <= n - stack@.len(),
                forall|rel: spec_fn(T, T) -> bool|
                    answers_as(same_bucket, rel) ==> kept@ == #[trigger] dedup_runs(s.take(n - stack@.len()), rel),
                forall|i: int| 0 <= i < stack@.len() ==> #[trigger] stack@[i] == s[n - 1 - i],
                forall|x: &T, k: &T| #[trigger] same_bucket.requires((x, k)),
            decreases stack@.len(),
        {
            let ghost m = n - stack@.len();
            let ghost before = kept@;
            let x = stack.pop().unwrap();
            assert(s.take(m + 1).drop_last() =~= s.take(m));
            assert(s.take(m + 1).last() == x);
            let dup = kept.len() > 0 && same_bucket(&x, &kept[kept.len() - 1]);
            if !dup {
                kept.push(x);
            }
            assert forall|rel: spec_fn(T, T) -> bool| answers_as(same_bucket, rel) implies kept@ == #[trigger] dedup_runs(
                s.take(m + 1),
                rel,
            ) by {
                assert(before == dedup_runs(s.take(m), rel));
                if before.len() > 0 {
                    assert(same_bucket.ensures((&x, &before.last()), dup));
                }
            }
        }
        assert(s.take(n as int) =~= s);
        self.header.length = kept.len();
        self.slots = kept;
    }

    /// Appends a clone of each element of `other`, in order, growing at most
    /// once, to exactly the room needed.
    pub fn extend_from_slice(&mut self, other: &[T])
        where
            T: Clone,
        requires
            old(self).wf(),
            old(self)@.len() + other@.len() <= usize::MAX,
        ensures
            final(self).wf(),
            final(self)@.capacity == old(self)@.capacity_for(old(self)@.len() + other@.len()),
            final(self)@.len() == old(self)@.len() + other@.len(),
            final(self)@.elems.take(old(self)@.len() as int) == old(self)@.elems,
            forall|i: int|
                0 <= i < other@.len() ==> cloned::<T>(
                    other@[i],
                    #[trigger] final(self)@.elems[old(self)@.len() + i],
                ),
    {
        let needed = self.header.length + other.len();
        if needed > self.header.capacity {
            self.slots.reserve(needed - self.header.length);
            self.header.capacity = needed;
        }
        self.slots.extend_from_slice(other);
        self.header.length = needed;
        assert(self.slots@.take(old(self)@.len() as int) =~= old(self)@.elems);
    }
}

impl<T: PartialEq> MiniVec<T> {
    /// Collapses each run of adjacent equal elements into its first member.
    pub fn dedup(&mut self)
        requires
            old(self).wf(),
            T::obeys_eq_spec(),
        ensures
            final(self).wf(),
            final(self)@ == old(self)@.dedup_by(|x: T, k: T| x.eq_spec(&k)),
    {
        let eq = |x: &T, k: &T| -> (r: bool)
            ensures
                T::obeys_eq_spec() ==> r == x.eq_spec(k),
            { x.eq(k) };
        self.dedup_by(eq);
        assert(answers_as(eq, |x: T, k: T| x.eq_spec(&k)));
    }
}

impl<T> Default for MiniVec<T> {
    fn default() -> (r: Self)
        ensures
            r.wf(),
            r@ == Block::<T>::empty(0),
    {
        MiniVec::new()
    }
}

} // verus!
