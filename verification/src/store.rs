//! The verified model of a reference-counted heap.
//!
//! A [`Store`] owns every allocation of one payload type. Each allocation is
//! a [`Slot`] carrying a strong count, a weak count and the payload itself.
//! Strong and weak handles are plain indices into the store, so the address
//! of an allocation is its slot index and never changes.
//!
//! Every transition a handle operation performs on the store is written out
//! as a spec function (`after_allocate`, `after_incr_strong`, ...), and the
//! executable operations promise exactly those transitions.

use vstd::prelude::*;

verus! {

/// One reference-counted allocation: a strong count, a weak count, and the
/// payload, which is present exactly while the strong count is positive.
pub struct Slot<T> {
    /// Number of live strong handles of this allocation.
    pub strong: usize,
    /// Number of live weak handles of this allocation.
    pub weak: usize,
    /// The payload; `None` once the last strong handle is gone, and before
    /// a cyclic construction is finished.
    pub payload: Option<T>,
}

/// The heap of reference-counted allocations for one payload type.
pub struct Store<T> {
    slots: Vec<Slot<T>>,
}

impl<T> View for Store<T> {
    type V = Seq<Slot<T>>;

    closed spec fn view(&self) -> Seq<Slot<T>> {
        self.slots@
    }
}

/// Well-formedness of a store: a slot holds its payload exactly while its
/// strong count is positive. Constructors establish this and every operation
/// preserves it.
pub open spec fn store_wf<T>(slots: Seq<Slot<T>>) -> bool {
    forall|i: int|
        0 <= i < slots.len() ==> ((#[trigger] slots[i]).strong > 0 <==> slots[i].payload is Some)
}

/// The slot at `i` exists and still owns a live payload: some strong handle
/// of it remains, so an upgrade of a weak handle to it succeeds.
pub open spec fn live<T>(slots: Seq<Slot<T>>, i: int) -> bool {
    0 <= i < slots.len() && slots[i].strong > 0
}

/// The store after a fresh allocation: one strong handle, no weak handles.
pub open spec fn after_allocate<T>(slots: Seq<Slot<T>>, value: T) -> Seq<Slot<T>> {
    slots.push(Slot { strong: 1, weak: 0, payload: Some(value) })
}

/// The store after one more strong handle of slot `i` appears.
pub open spec fn after_incr_strong<T>(slots: Seq<Slot<T>>, i: int) -> Seq<Slot<T>> {
    slots.update(
        i,
        Slot { strong: (slots[i].strong + 1) as usize, weak: slots[i].weak, payload: slots[i].payload },
    )
}

/// The store after one strong handle of slot `i` goes away: the payload is
/// dropped exactly when the last strong handle goes.
pub open spec fn after_decr_strong<T>(slots: Seq<Slot<T>>, i: int) -> Seq<Slot<T>> {
    slots.update(
        i,
        Slot {
            strong: (slots[i].strong - 1) as usize,
            weak: slots[i].weak,
            payload: if slots[i].strong == 1 {
                None
            } else {
                slots[i].payload
            },
        },
    )
}

/// The store after one more weak handle of slot `i` appears.
pub open spec fn after_incr_weak<T>(slots: Seq<Slot<T>>, i: int) -> Seq<Slot<T>> {
    slots.update(
        i,
        Slot { strong: slots[i].strong, weak: (slots[i].weak + 1) as usize, payload: slots[i].payload },
    )
}

/// The store after one weak handle of slot `i` goes away.
pub open spec fn after_decr_weak<T>(slots: Seq<Slot<T>>, i: int) -> Seq<Slot<T>> {
    slots.update(
        i,
        Slot { strong: slots[i].strong, weak: (slots[i].weak - 1) as usize, payload: slots[i].payload },
    )
}

/// The store after the payload of slot `i` is overwritten with `value`.
pub open spec fn after_write<T>(slots: Seq<Slot<T>>, i: int, value: T) -> Seq<Slot<T>> {
    slots.update(
        i,
        Slot { strong: slots[i].strong, weak: slots[i].weak, payload: Some(value) },
    )
}

/// The store after the payload of slot `i` is taken out by its only strong
/// handle.
pub open spec fn after_unwrap<T>(slots: Seq<Slot<T>>, i: int) -> Seq<Slot<T>> {
    slots.update(
        i,
        Slot { strong: 0, weak: slots[i].weak, payload: None },
    )
}

/// The store after a cyclic construction begins: a fresh slot with no strong
/// handle yet and one weak handle, the one the initializer receives.
pub open spec fn after_pending<T>(slots: Seq<Slot<T>>) -> Seq<Slot<T>> {
    slots.push(Slot { strong: 0, weak: 1, payload: None })
}

/// The store after a cyclic construction of slot `i` is finished: the payload
/// is in place and the first strong handle exists.
pub open spec fn after_finish<T>(slots: Seq<Slot<T>>, i: int, value: T) -> Seq<Slot<T>> {
    slots.update(
        i,
        Slot { strong: 1, weak: slots[i].weak, payload: Some(value) },
    )
}

impl<T> Store<T> {
    /// An empty store: no allocations yet.
    pub fn new() -> (s: Store<T>)
        ensures
            s@ == Seq::<Slot<T>>::empty(),
    {
        Store { slots: Vec::new() }
    }

    /// The number of slots ever allocated.
    pub fn len(&self) -> (n: usize)
        ensures
            n == self@.len(),
    {
        self.slots.len()
    }

    /// A fresh allocation wrapping `value`, with strong count 1 and weak
    /// count 0. Returns its slot index.
    pub fn allocate(&mut self, value: T) -> (i: usize)
        requires
            old(self)@.len() < usize::MAX,
        ensures
            i == old(self)@.len(),
            final(self)@ == after_allocate(old(self)@, value),
    {
        let i = self.slots.len();
        self.slots.push(Slot { strong: 1, weak: 0, payload: Some(value) });
        i
    }

    /// The strong count of slot `i`.
    pub fn strong_at(&self, i: usize) -> (n: usize)
        requires
            i < self@.len(),
        ensures
            n == self@[i as int].strong,
    {
        self.slots[i].strong
    }

    /// The weak count of slot `i`.
    pub fn weak_at(&self, i: usize) -> (n: usize)
        requires
            i < self@.len(),
        ensures
            n == self@[i as int].weak,
    {
        self.slots[i].weak
    }

    /// A shared borrow of the payload of slot `i`.
    pub fn read<'a>(&'a self, i: usize) -> (r: &'a T)
        requires
            i < self@.len(),
            self@[i as int].payload is Some,
        ensures
            *r == self@[i as int].payload.unwrap(),
    {
        match &self.slots[i].payload {
            Some(p) => p,
            None => unreached(),
        }
    }

    /// One more strong handle of slot `i`.
    pub fn incr_strong(&mut self, i: usize)
        requires
            live(old(self)@, i as int),
            old(self)@[i as int].strong < usize::MAX,
        ensures
            final(self)@ == after_incr_strong(old(self)@, i as int),
    {
        let slot = &mut self.slots[i];
        slot.strong = slot.strong + 1;
    }

    /// One strong handle of slot `i` fewer; drops the payload when the last
    /// one goes.
    pub fn decr_strong(&mut self, i: usize)
        requires
            live(old(self)@, i as int),
        ensures
            final(self)@ == after_decr_strong(old(self)@, i as int),
    {
        let slot = &mut self.slots[i];
        slot.strong = slot.strong - 1;
        if slot.strong == 0 {
            slot.payload = None;
        }
    }

    /// One more weak handle of slot `i`.
    pub fn incr_weak(&mut self, i: usize)
        requires
            i < old(self)@.len(),
            old(self)@[i as int].weak < usize::MAX,
        ensures
            final(self)@ == after_incr_weak(old(self)@, i as int),
    {
        let slot = &mut self.slots[i];
        slot.weak = slot.weak + 1;
    }

    /// One weak handle of slot `i` fewer.
    pub fn decr_weak(&mut self, i: usize)
        requires
            i < old(self)@.len(),
            old(self)@[i as int].weak > 0,
        ensures
            final(self)@ == after_decr_weak(old(self)@, i as int),
    {
        let slot = &mut self.slots[i];
        slot.weak = slot.weak - 1;
    }

    /// An exclusive borrow of the payload of slot `i`; the counts stay as
    /// they are.
    pub fn payload_mut<'a>(&'a mut self, i: usize) -> (p: &'a mut T)
        requires
            i < old(self)@.len(),
            old(self)@[i as int].payload is Some,
        ensures
            *p == old(self)@[i as int].payload.unwrap(),
            final(self)@ == after_write(old(self)@, i as int, *final(p)),
    {
        match &mut self.slots[i].payload {
            Some(p) => p,
            None => unreached(),
        }
    }

    /// An exclusive borrow of the payload of slot `i`, granted exactly when
    /// the caller's strong handle is the only handle of the slot: strong
    /// count 1 and weak count 0. Otherwise nothing changes.
    pub fn exclusive_payload_mut<'a>(&'a mut self, i: usize) -> (r: Option<&'a mut T>)
        requires
            live(old(self)@, i as int),
            store_wf(old(self)@),
        ensures
            (r is Some <==> (old(self)@[i as int].strong == 1 && old(self)@[i as int].weak == 0)),
            r is None ==> final(self)@ == old(self)@,
            (r matches Some(p) ==> *p == old(self)@[i as int].payload.unwrap() && final(self)@
                == after_write(old(self)@, i as int, *final(p))),
    {
        if self.strong_at(i) == 1 && self.weak_at(i) == 0 {
            Some(self.payload_mut(i))
        } else {
            None
        }
    }

    /// A new strong handle of slot `i` if its payload is still live:
    /// check-and-increment in one step, the upgrade of a weak handle.
    pub fn try_upgrade(&mut self, i: usize) -> (ok: bool)
        requires
            i < old(self)@.len(),
            old(self)@[i as int].strong < usize::MAX,
        ensures
            ok == (old(self)@[i as int].strong > 0),
            ok ==> final(self)@ == after_incr_strong(old(self)@, i as int),
            !ok ==> final(self)@ == old(self)@,
    {
        if self.strong_at(i) > 0 {
            self.incr_strong(i);
            true
        } else {
            false
        }
    }

    /// The payload of slot `i`, taken out by its only strong handle, which
    /// the caller gives up.
    pub fn take_last(&mut self, i: usize) -> (t: T)
        requires
            i < old(self)@.len(),
            old(self)@[i as int].strong == 1,
            store_wf(old(self)@),
        ensures
            Some(t) == old(self)@[i as int].payload,
            final(self)@ == after_unwrap(old(self)@, i as int),
    {
        let slot = &mut self.slots[i];
        slot.strong = 0;
        let p = slot.payload.take();
        match p {
            Some(t) => t,
            None => unreached(),
        }
    }

    /// A fresh slot for a cyclic construction: no strong handle yet, no
    /// payload yet, and one weak handle, the one handed to the initializer.
    /// Returns the slot index.
    pub fn allocate_pending(&mut self) -> (i: usize)
        requires
            old(self)@.len() < usize::MAX,
        ensures
            i == old(self)@.len(),
            final(self)@ == after_pending(old(self)@),
    {
        let i = self.slots.len();
        self.slots.push(Slot { strong: 0, weak: 1, payload: None });
        i
    }

    /// Finishes a cyclic construction: the payload moves in and the first
    /// strong handle of slot `i` comes into being.
    pub fn finish_pending(&mut self, i: usize, value: T)
        requires
            i < old(self)@.len(),
            old(self)@[i as int].strong == 0,
        ensures
            final(self)@ == after_finish(old(self)@, i as int, value),
    {
        let slot = &mut self.slots[i];
        slot.strong = 1;
        slot.payload = Some(value);
    }
}

} // verus!
