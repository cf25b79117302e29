use vstd::prelude::*;

verus! {

/// What one subscriber's queue holds after `m` is offered to it: `m` goes at
/// the back, and when the queue is already full its oldest item leaves.
pub open spec fn enqueue<T>(q: Seq<T>, m: T, capacity: nat) -> Seq<T> {
    if q.len() < capacity {
        q.push(m)
    } else {
        q.drop_first().push(m)
    }
}

/// Every open slot after `m` is published: each open queue takes `m`,
/// closed slots stay closed.
pub open spec fn publish_to<T>(slots: Seq<Option<Seq<T>>>, m: T, capacity: nat) -> Seq<
    Option<Seq<T>>,
> {
    Seq::new(
        slots.len(),
        |i: int|
            match slots[i] {
                Some(q) => Some(enqueue(q, m, capacity)),
                None => None,
            },
    )
}

/// The slots after the messages `ms` are published one after the other.
pub open spec fn publish_all<T>(slots: Seq<Option<Seq<T>>>, ms: Seq<T>, capacity: nat) -> Seq<
    Option<Seq<T>>,
>
    decreases ms.len(),
{
    if ms.len() == 0 {
        slots
    } else {
        publish_to(publish_all(slots, ms.drop_last(), capacity), ms.last(), capacity)
    }
}

/// The slots after a subscriber takes slot `id` with `seed` as its first item.
pub open spec fn open_slot<T>(slots: Seq<Option<Seq<T>>>, id: int, seed: T) -> Seq<
    Option<Seq<T>>,
> {
    if id == slots.len() {
        slots.push(Some(seq![seed]))
    } else {
        slots.update(id, Some(seq![seed]))
    }
}

/// A fan-out hub: each subscriber owns a slot with a bounded queue of its
/// own. Publishing never waits on a subscriber: a full queue drops its
/// oldest item. A slot whose subscriber has left is empty (`None`) and is
/// reused by the next subscriber.
pub struct Broadcaster<T> {
    slots: Vec<Option<Vec<T>>>,
    capacity: usize,
}

/// The open queues as plain sequences.
pub open spec fn slot_views<T>(slots: Seq<Option<Vec<T>>>) -> Seq<Option<Seq<T>>> {
    Seq::new(
        slots.len(),
        |i: int|
            match slots[i] {
                Some(q) => Some(q@),
                None => None,
            },
    )
}

impl<T: Copy> Broadcaster<T> {
    /// The subscribers' queues, slot by slot.
    pub closed spec fn slots(&self) -> Seq<Option<Seq<T>>> {
        slot_views(self.slots@)
    }

    /// How many items a subscriber's queue holds at most.
    pub closed spec fn capacity(&self) -> nat {
        self.capacity as nat
    }

    pub open spec fn wf(&self) -> bool {
        &&& self.capacity() >= 1
        &&& forall|i: int|
            0 <= i < self.slots().len() && (#[trigger] self.slots()[i]) is Some ==> self.slots()[i]->0.len()
                <= self.capacity()
    }

    /// A hub without subscribers whose queues hold up to `capacity` items
    /// (at least one).
    pub fn new(capacity: usize) -> (r: Self)
        ensures
            r.wf(),
            r.slots() == Seq::<Option<Seq<T>>>::empty(),
            r.capacity() == if capacity == 0 {
                1
            } else {
                capacity as nat
            },
    {
        let b = Broadcaster { slots: Vec::new(), capacity: if capacity == 0 { 1 } else { capacity } };
        assert(b.slots() =~= Seq::<Option<Seq<T>>>::empty());
        b
    }

    /// How many items a subscriber's queue holds at most.
    pub fn queue_capacity(&self) -> (r: usize)
        ensures
            r == self.capacity(),
    {
        self.capacity
    }

    /// How many slots there are, open or empty.
    pub fn slot_count(&self) -> (r: usize)
        ensures
            r == self.slots().len(),
    {
        self.slots.len()
    }

    /// Adds a subscriber whose queue starts with `seed`, in the first empty
    /// slot, or in a new slot when none is empty. Returns the slot.
    pub fn subscribe(&mut self, seed: T) -> (id: usize)
        requires
            old(self).wf(),
            old(self).slots().len() < usize::MAX,
        ensures
            final(self).wf(),
            final(self).capacity() == old(self).capacity(),
            id <= old(self).slots().len(),
            id < old(self).slots().len() ==> old(self).slots()[id as int] is None,
            forall|j: int| 0 <= j < id ==> (#[trigger] old(self).slots()[j]) is Some,
            final(self).slots() == open_slot(old(self).slots(), id as int, seed),
    {
        let mut i: usize = 0;
        while i < self.slots.len() && self.slots[i].is_some()
            invariant
                i <= self.slots@.len(),
                self.slots@ == old(self).slots@,
                forall|j: int| 0 <= j < i ==> (#[trigger] self.slots@[j]) is Some,
            decreases self.slots@.len() - i,
        {
            i = i + 1;
        }
        proof {
            assert forall|j: int| 0 <= j < i implies (#[trigger] old(self).slots()[j]) is Some by {
                assert(self.slots@[j] is Some);
            }
            if i < self.slots@.len() {
                assert(old(self).slots()[i as int] is None);
            }
        }
        let mut q: Vec<T> = Vec::new();
        q.push(seed);
        if i == self.slots.len() {
            self.slots.push(Some(q));
        } else {
            self.slots.set(i, Some(q));
        }
        proof {
            assert(self.slots() =~= open_slot(old(self).slots(), i as int, seed));
        }
        i
    }

    /// Empties slot `id`; its queue is dropped.
    pub fn unsubscribe(&mut self, id: usize)
        requires
            old(self).wf(),
        ensures
            final(self).wf(),
            final(self).capacity() == old(self).capacity(),
            final(self).slots() == if id < old(self).slots().len() {
                old(self).slots().update(id as int, None)
            } else {
                old(self).slots()
            },
    {
        if id < self.slots.len() {
            self.slots.set(id, None);
            proof {
                assert(self.slots() =~= old(self).slots().update(id as int, None));
            }
        }
    }

    /// Hands out what slot `id` holds, oldest first, and leaves its queue
    /// empty; `None` when the slot is not open.
    pub fn drain(&mut self, id: usize) -> (r: Option<Vec<T>>)
        requires
            old(self).wf(),
        ensures
            final(self).wf(),
            final(self).capacity() == old(self).capacity(),
            id < old(self).slots().len() && old(self).slots()[id as int] is Some ==> {
                &&& r is Some
                &&& r->0@ == old(self).slots()[id as int]->0
                &&& final(self).slots() == old(self).slots().update(
                    id as int,
                    Some(Seq::<T>::empty()),
                )
            },
            !(id < old(self).slots().len() && old(self).slots()[id as int] is Some) ==> {
                &&& r is None
                &&& final(self).slots() == old(self).slots()
            },
    {
        if id < self.slots.len() {
            let mut taken: Option<Vec<T>> = Some(Vec::new());
            std::mem::swap(&mut self.slots[id], &mut taken);
            match taken {
                Some(q) => {
                    proof {
                        assert(self.slots() =~= old(self).slots().update(
                            id as int,
                            Some(Seq::<T>::empty()),
                        ));
                    }
                    Some(q)
                },
                None => {
                    self.slots.set(id, None);
                    proof {
                        assert(self.slots() =~= old(self).slots());
                    }
                    None
                },
            }
        } else {
            None
        }
    }

    /// Offers `m` to every open queue; a full queue drops its oldest item.
    pub fn publish(&mut self, m: T)
        requires
            old(self).wf(),
        ensures
            final(self).wf(),
            final(self).capacity() == old(self).capacity(),
            final(self).slots() == publish_to(old(self).slots(), m, old(self).capacity()),
    {
        let ghost before = self.slots();
        let cap = self.capacity;
        let mut i: usize = 0;
        while i < self.slots.len()
            invariant
                self.wf(),
                self.capacity == cap,
                self.slots().len() == before.len(),
                i <= before.len(),
                forall|j: int|
                    0 <= j < i ==> #[trigger] self.slots()[j] == publish_to(before, m, cap as nat)[j],
                forall|j: int| i <= j < before.len() ==> #[trigger] self.slots()[j] == before[j],
            decreases before.len() - i,
        {
            let ghost old_slots = self.slots();
            let ghost old_vec = self.slots@;
            assert(self.slots()[i as int] == before[i as int]);
            let mut taken: Option<Vec<T>> = None;
            std::mem::swap(&mut self.slots[i], &mut taken);
            match taken {
                Some(mut q) => {
                    assert(q@ == before[i as int]->0);
                    assert(q@.len() <= cap);
                    if q.len() >= cap {
                        q.remove(0);
                        assert(q@ =~= before[i as int]->0.drop_first());
                    }
                    q.push(m);
                    assert(q@ =~= enqueue(before[i as int]->0, m, cap as nat));
                    self.slots.set(i, Some(q));
                },
                None => {},
            }
            proof {
                assert forall|j: int| 0 <= j < self.slots().len() && j != i implies #[trigger] self.slots()[j] == old_slots[j] by {
                    assert(self.slots@[j] == old_vec[j]);
                }
                assert(self.slots()[i as int] == publish_to(before, m, cap as nat)[i as int]);
                assert forall|j: int| 0 <= j < self.slots().len() && (#[trigger] self.slots()[j]) is Some implies self.slots()[j]->0.len() <= self.capacity() by {
                    if j != i {
                        assert(self.slots()[j] == old_slots[j]);
                    }
                }
            }
            i = i + 1;
        }
        proof {
            assert(self.slots() =~= publish_to(before, m, cap as nat));
        }
    }
}

} // verus!
