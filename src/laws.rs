use vstd::prelude::*;

use crate::block::{dedup_runs, Block};

verus! {

/// Pushing values one after another onto a well-formed block: the length
/// grows by exactly the number of values pushed, the values follow the old
/// elements in order, and the capacity always covers the length.
pub proof fn lemma_push_all<T>(b: Block<T>, vals: Seq<T>)
    requires
        b.wf(),
        b.len() + vals.len() <= usize::MAX,
    ensures
        b.push_all(vals).len() == b.len() + vals.len(),
        b.push_all(vals).elems == b.elems + vals,
        b.push_all(vals).wf(),
    decreases vals.len(),
{
    if vals.len() > 0 {
        let init = vals.drop_last();
        lemma_push_all(b, init);
        let mid = b.push_all(init);
        assert(b.elems + vals =~= (b.elems + init).push(vals.last()));
    }
}

/// Leaking a container, overwriting its first element through the handle and
/// rebuilding a container from the header gives the old length and capacity
/// and the old elements with the first one replaced: the block that `leak`,
/// `Handle::write` at index 0 and `MiniVec::from_raw_part` describe in turn.
pub proof fn lemma_leak_write_rebuild<T>(b: Block<T>, first: T)
    requires
        b.wf(),
        b.len() > 0,
    ensures
        ({
            let rebuilt = Block { elems: b.elems.update(0, first).take(b.len() as int), capacity: b.capacity };
            &&& rebuilt.len() == b.len()
            &&& rebuilt.capacity == b.capacity
            &&& rebuilt.elems == b.elems.update(0, first)
        }),
{
    assert(b.elems.update(0, first).take(b.len() as int) =~= b.elems.update(0, first));
}

/// After collapsing runs, no element is related to the element kept just
/// before it, and nothing was added: the result is no longer than the input.
pub proof fn lemma_dedup_runs_collapsed<T>(s: Seq<T>, same: spec_fn(T, T) -> bool)
    ensures
        dedup_runs(s, same).len() <= s.len(),
        forall|i: int|
            0 < i < dedup_runs(s, same).len() ==> !same(
                #[trigger] dedup_runs(s, same)[i],
                dedup_runs(s, same)[i - 1],
            ),
    decreases s.len(),
{
    if s.len() > 0 {
        lemma_dedup_runs_collapsed(s.drop_last(), same);
    }
}

} // verus!
