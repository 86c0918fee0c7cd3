//! Bounded output queue that drops its oldest entry when full, so that a
//! slow reader never holds up the writer.
use vstd::prelude::*;

verus! {

/// First-in first-out queue of at most `capacity` entries.
pub struct BoundedQueue<T> {
    items: Vec<T>,
    capacity: usize,
}

impl<T> View for BoundedQueue<T> {
    type V = Seq<T>;

    /// Entries, oldest first.
    closed spec fn view(&self) -> Seq<T> {
        self.items@
    }
}

impl<T> BoundedQueue<T> {
    /// Most entries the queue holds.
    pub closed spec fn cap(&self) -> nat {
        self.capacity as nat
    }

    /// The capacity is positive and not exceeded.
    pub closed spec fn wf(&self) -> bool {
        0 < self.capacity && self.items@.len() <= self.capacity
    }

    /// An empty queue of at most `capacity` entries.
    pub fn new(capacity: usize) -> (r: BoundedQueue<T>)
        requires
            capacity > 0,
        ensures
            r.wf(),
            r@ == Seq::<T>::empty(),
            r.cap() == capacity,
    {
        BoundedQueue { items: Vec::new(), capacity }
    }

    /// Most entries the queue holds.
    pub fn capacity(&self) -> (r: usize)
        ensures
            r == self.cap(),
    {
        self.capacity
    }

    /// Number of entries.
    pub fn len(&self) -> (r: usize)
        ensures
            r == self@.len(),
    {
        self.items.len()
    }

    /// Whether the queue holds no entry.
    pub fn is_empty(&self) -> (r: bool)
        ensures
            r == (self@.len() == 0),
    {
        self.items.len() == 0
    }

    /// Appends `item`. When the queue is full its oldest entry makes room
    /// and is returned.
    pub fn push(&mut self, item: T) -> (dropped: Option<T>)
        requires
            old(self).wf(),
        ensures
            final(self).wf(),
            final(self).cap() == old(self).cap(),
            if old(self)@.len() < old(self).cap() {
                &&& final(self)@ == old(self)@.push(item)
                &&& dropped is None
            } else {
                &&& final(self)@ == old(self)@.drop_first().push(item)
                &&& dropped == Some(old(self)@[0])
            },
    {
        let dropped = if self.items.len() < self.capacity {
            None
        } else {
            Some(self.items.remove(0))
        };
        self.items.push(item);
        proof {
            if old(self)@.len() >= old(self).cap() {
                assert(old(self)@.remove(0) =~= old(self)@.drop_first());
            }
        }
        dropped
    }

    /// Takes the oldest entry, if any.
    pub fn pop(&mut self) -> (r: Option<T>)
        requires
            old(self).wf(),
        ensures
            final(self).wf(),
            final(self).cap() == old(self).cap(),
            if old(self)@.len() == 0 {
                &&& r is None
                &&& final(self)@ == old(self)@
            } else {
                &&& r == Some(old(self)@[0])
                &&& final(self)@ == old(self)@.drop_first()
            },
    {
        if self.items.len() == 0 {
            None
        } else {
            let r = self.items.remove(0);
            assert(old(self)@.remove(0) =~= old(self)@.drop_first());
            Some(r)
        }
    }
}

/// Pushing keeps the newest entries: after a push the queue ends with the
/// pushed entry and holds `min(len + 1, capacity)` entries.
pub proof fn lemma_push_keeps_newest<T>(before: Seq<T>, after: Seq<T>, cap: nat, item: T)
    requires
        0 < cap,
        before.len() <= cap,
        if before.len() < cap {
            after == before.push(item)
        } else {
            after == before.drop_first().push(item)
        },
    ensures
        after.len() == if before.len() < cap {
            before.len() + 1
        } else {
            cap
        },
        after.last() == item,
        forall|i: int|
            0 <= i < after.len() - 1 ==> #[trigger] after[i] == before[i + before.len() + 1
                - after.len()],
{
}

} // verus!
