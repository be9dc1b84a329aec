use vstd::prelude::*;

use crate::block::Block;
use crate::minivec::{Header, MiniVec};

verus! {

/// A storage block whose owner has let go of it: the header as the container
/// last wrote it, and the slots that hold a value. Writing through the handle
/// leaves the header alone; rebuilding a container from the handle either
/// trusts the header or overrides it.
pub struct Handle<T> {
    header: Header,
    slots: Vec<T>,
}

impl<T> View for Handle<T> {
    type V = Block<T>;

    /// The block as its header describes it.
    closed spec fn view(&self) -> Block<T> {
        Block {
            elems: self.slots@.take(self.header.length as int),
            capacity: self.header.capacity as nat,
        }
    }
}

impl<T> Handle<T> {
    /// Every slot that holds a value, whether or not the header counts it.
    pub closed spec fn slots(&self) -> Seq<T> {
        self.slots@
    }

    /// The header counts only slots that hold a value, and those fit in the
    /// allocation.
    pub closed spec fn header_fits(&self) -> bool {
        self.header.length <= self.slots@.len() <= self.header.capacity
    }

    pub open spec fn wf(&self) -> bool {
        &&& self.header_fits()
        &&& self@.wf()
        &&& self@.len() <= self.slots().len() <= self@.capacity
        &&& self@.elems == self.slots().take(self@.len() as int)
    }

    /// The length recorded in the header.
    pub fn len(&self) -> (r: usize)
        requires
            self.wf(),
        ensures
            r == self@.len(),
    {
        self.header.length
    }

    /// The capacity recorded in the header.
    pub fn capacity(&self) -> (r: usize)
        requires
            self.wf(),
        ensures
            r == self@.capacity,
    {
        self.header.capacity
    }

    /// The number of slots that hold a value.
    pub fn initialized(&self) -> (r: usize)
        requires
            self.wf(),
        ensures
            r == self.slots().len(),
    {
        self.slots.len()
    }

    /// The elements that the header counts, in order.
    pub fn as_slice(&self) -> (r: &[T])
        requires
            self.wf(),
        ensures
            r@ == self@.elems,
    {
        let all = self.slots.as_slice();
        &all[0..self.header.length]
    }

    /// Stores `value` in slot `index`: over the value there, or in the first
    /// empty slot. The header is not touched.
    pub fn write(&mut self, index: usize, value: T)
        requires
            old(self).wf(),
            index <= old(self).slots().len(),
            index < old(self)@.capacity,
        ensures
            final(self).wf(),
            final(self).slots() == if index < old(self).slots().len() {
                old(self).slots().update(index as int, value)
            } else {
                old(self).slots().push(value)
            },
            final(self)@ == (Block {
                elems: final(self).slots().take(old(self)@.len() as int),
                capacity: old(self)@.capacity,
            }),
    {
        if index < self.slots.len() {
            self.slots.set(index, value);
        } else {
            self.slots.push(value);
        }
    }
}

impl<T> MiniVec<T> {
    /// Gives up ownership of the storage without dropping anything: the
    /// elements stay reachable through the returned handle.
    pub fn leak(self) -> (r: Handle<T>)
        requires
            self.wf(),
        ensures
            r.wf(),
            r@ == self@,
            r.slots() == self@.elems,
    {
        let (header, slots) = self.into_header();
        let r = Handle { header, slots };
        assert(r.slots@.take(r.header.length as int) =~= r.slots@);
        r
    }

    /// Takes ownership of a handle's storage, with the length and capacity
    /// that its header records.
    pub fn from_raw_part(handle: Handle<T>) -> (r: Self)
        requires
            handle.wf(),
        ensures
            r.wf(),
            r@ == handle@,
    {
        let mut slots = handle.slots;
        slots.truncate(handle.header.length);
        MiniVec::from_header(handle.header, slots)
    }

    /// Takes ownership of a handle's storage with the given length and
    /// capacity, whatever its header says.
    pub fn from_raw_parts(handle: Handle<T>, length: usize, capacity: usize) -> (r: Self)
        requires
            handle.wf(),
            length <= handle.slots().len(),
            length <= capacity <= handle@.capacity,
        ensures
            r.wf(),
            r@ == (Block { elems: handle.slots().take(length as int), capacity: capacity as nat }),
    {
        let mut slots = handle.slots;
        slots.truncate(length);
        MiniVec::from_header(Header { length, capacity }, slots)
    }
}

} // verus!
