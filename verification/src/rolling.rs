//! Fixed-capacity rolling history with strict FIFO eviction.

use vstd::prelude::*;

verus! {

/// The contents of a rolling buffer after appending `v`: the new element goes
/// to the tail, and when the buffer is already full the oldest element (the
/// head) is evicted.
pub open spec fn push_evict<T>(s: Seq<T>, capacity: nat, v: T) -> Seq<T> {
    if s.len() < capacity {
        s.push(v)
    } else {
        s.drop_first().push(v)
    }
}

/// A push never grows the contents past the capacity, so any sequence of
/// pushes starting from a bounded buffer keeps it bounded.
pub proof fn lemma_push_evict_bounded<T>(s: Seq<T>, capacity: nat, v: T)
    requires
        1 <= capacity,
        s.len() <= capacity,
    ensures
        push_evict(s, capacity, v).len() <= capacity,
{
}

/// Fixed-capacity ordered sequence, oldest first. Pushing beyond the capacity
/// evicts exactly the oldest element; the relative order of the surviving
/// elements is preserved.
pub struct RollingBuffer<T> {
    capacity: usize,
    items: Vec<T>,
}

impl<T> View for RollingBuffer<T> {
    type V = Seq<T>;

    closed spec fn view(&self) -> Seq<T> {
        self.items@
    }
}

impl<T> RollingBuffer<T> {
    /// The capacity fixed at construction.
    pub closed spec fn spec_capacity(&self) -> nat {
        self.capacity as nat
    }

    /// The buffer holds at least one slot and never more elements than its
    /// capacity.
    pub open spec fn wf(&self) -> bool {
        1 <= self.spec_capacity() && self@.len() <= self.spec_capacity()
    }

    pub fn new(capacity: usize) -> (r: RollingBuffer<T>)
        requires
            1 <= capacity,
        ensures
            r.wf(),
            r@ == Seq::<T>::empty(),
            r.spec_capacity() == capacity,
    {
        RollingBuffer { capacity, items: Vec::new() }
    }

    pub fn capacity(&self) -> (c: usize)
        ensures
            c == self.spec_capacity(),
    {
        self.capacity
    }

    pub fn len(&self) -> (n: usize)
        ensures
            n == self@.len(),
    {
        self.items.len()
    }

    /// Appends `v` at the tail; when the buffer is full, evicts the oldest
    /// element, so the length never exceeds the capacity.
    pub fn push(&mut self, v: T)
        requires
            old(self).wf(),
        ensures
            final(self).wf(),
            final(self).spec_capacity() == old(self).spec_capacity(),
            final(self)@ == push_evict(old(self)@, old(self).spec_capacity(), v),
            final(self)@.len() <= final(self).spec_capacity(),
    {
        self.items.push(v);
        if self.items.len() > self.capacity {
            self.items.remove(0);
            proof {
                assert(self.items@ =~= old(self)@.drop_first().push(v));
            }
        }
    }

    /// Read-only view of the current contents, oldest first.
    pub fn snapshot(&self) -> (r: &Vec<T>)
        ensures
            r@ == self@,
    {
        &self.items
    }
}

} // verus!
