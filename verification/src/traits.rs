//! The capability traits: a family marker per pointer flavor, the strong
//! pointer capability, and the weak family and weak pointer capabilities.
//!
//! A family marker is a zero-size tag naming one flavor. Its associated
//! pointer type carries the operations, and the pointer type names its
//! family back, so family, pointer type and family again is the identity.
//! Copy-on-write mutation is a separate refinement, [`CloneSmartPointer`],
//! so that strong pointers stay usable over payload types that cannot be
//! duplicated.
//!
//! Every operation works against the [`Store`] that owns the allocations,
//! and its contract states the exact store transition it performs.

use vstd::prelude::*;

use crate::store::Store;
use crate::store::after_allocate;
use crate::store::after_decr_strong;
use crate::store::after_decr_weak;
use crate::store::after_finish;
use crate::store::after_incr_strong;
use crate::store::after_incr_weak;
use crate::store::after_pending;
use crate::store::after_unwrap;
use crate::store::after_write;
use crate::store::live;
use crate::store::store_wf;
use vstd::pervasive::cloned;

verus! {

/// A strong pointer under a pinning promise: the payload's address will not
/// change for the rest of its lifetime. Addresses in the store model are
/// slot indices and never move, so the wrapper only records the promise.
pub struct Pinned<P> {
    /// The pinned strong handle.
    pub pointer: P,
}

/// An owning shared handle to one allocation of its store.
pub trait SmartPointer<T>: Sized {
    /// The slot index of the allocation this handle owns a share of.
    spec fn id(&self) -> int;

    /// A shared borrow of the payload.
    fn get<'a>(this: &Self, store: &'a Store<T>) -> (r: &'a T)
        requires
            live(store@, this.id()),
            store_wf(store@),
        ensures
            *r == store@[this.id()].payload.unwrap(),
    ;
}

/// A family of reference-counted pointers: a type-level factory for one
/// flavor.
pub trait SmartPointerFamily<T>: Sized {
    /// The strong pointer type of this flavor.
    type Pointer: SmartPointer<T>;

    /// Allocates a fresh reference-counted cell wrapping `value`, with
    /// strong count 1 and weak count 0.
    fn new(store: &mut Store<T>, value: T) -> (p: Self::Pointer)
        requires
            old(store)@.len() < usize::MAX,
        ensures
            p.id() == old(store)@.len(),
            final(store)@ == after_allocate(old(store)@, value),
    ;
}

/// The full strong pointer capability: identity, introspection, weak
/// counterparts, raw round-trips, cyclic construction, pinning and
/// unwrapping. Its bounds close the family relationship: re-deriving the
/// pointer type from this type's family yields this type again, and the
/// weak counterpart points back at this type as its strong half.
pub trait RefCounted<T>: SmartPointer<T> {
    /// The family of this pointer type, under its role as the strong half
    /// of a strong/weak pair.
    type StrongMark: SmartPointerFamily<T, Pointer = Self>;

    /// The non-owning counterpart of this pointer type.
    type WeakPointer: WeakPointer<T, StrongMark = Self::StrongMark, StrongPointer = Self>;

    /// The weak handle of this flavor that tracks slot `i`: the one
    /// `new_cyclic` hands its initializer.
    spec fn weak_to(i: int) -> Self::WeakPointer;

    /// What `weak_to` promises: the handle it names tracks exactly slot
    /// `i`, for any slot index a store can hold.
    proof fn weak_to_targets(i: int)
        requires
            0 <= i < usize::MAX,
        ensures
            Self::weak_to(i).target() == Some(i),
    ;

    /// Allocates a fresh reference-counted cell wrapping `value`, with
    /// strong count 1 and weak count 0, through this pointer type's family.
    fn new(store: &mut Store<T>, value: T) -> (p: Self)
        requires
            old(store)@.len() < usize::MAX,
        ensures
            p.id() == old(store)@.len(),
            final(store)@ == after_allocate(old(store)@, value),
    {
        Self::StrongMark::new(store, value)
    }

    /// The address of the payload: equal for any two handles sharing the
    /// allocation, and stable across clones.
    fn as_ptr(this: &Self) -> (a: usize)
        ensures
            a == this.id(),
    ;

    /// A new strong handle of the same allocation.
    fn clone(this: &Self, store: &mut Store<T>) -> (r: Self)
        requires
            live(old(store)@, this.id()),
            old(store)@[this.id()].strong < usize::MAX,
        ensures
            r.id() == this.id(),
            final(store)@ == after_incr_strong(old(store)@, this.id()),
    ;

    /// Gives this strong handle up; drops the payload when it was the last
    /// one.
    fn release(this: Self, store: &mut Store<T>)
        requires
            live(old(store)@, this.id()),
        ensures
            final(store)@ == after_decr_strong(old(store)@, this.id()),
    ;

    /// A new non-owning handle of the same allocation; the strong count
    /// stays as it is.
    fn downgrade(this: &Self, store: &mut Store<T>) -> (w: Self::WeakPointer)
        requires
            live(old(store)@, this.id()),
            old(store)@[this.id()].weak < usize::MAX,
        ensures
            w.target() == Some(this.id()),
            final(store)@ == after_incr_weak(old(store)@, this.id()),
    ;

    /// The strong count of this handle's allocation: a snapshot read.
    fn strong_count(this: &Self, store: &Store<T>) -> (n: usize)
        requires
            this.id() < store@.len(),
        ensures
            n == store@[this.id()].strong,
    ;

    /// The weak count of this handle's allocation: a snapshot read.
    fn weak_count(this: &Self, store: &Store<T>) -> (n: usize)
        requires
            this.id() < store@.len(),
        ensures
            n == store@[this.id()].weak,
    ;

    /// An exclusive borrow of the payload, granted exactly when this handle
    /// is the only handle of its allocation: strong count 1 and weak count
    /// 0. No duplication happens; otherwise nothing changes.
    fn get_mut<'a>(this: &mut Self, store: &'a mut Store<T>) -> (r: Option<&'a mut T>)
        requires
            live(old(store)@, old(this).id()),
            store_wf(old(store)@),
        ensures
            final(this).id() == old(this).id(),
            (r is Some <==> (old(store)@[old(this).id()].strong == 1 && old(store)@[old(this).id()].weak == 0)),
            r is None ==> final(store)@ == old(store)@,
            (r matches Some(p) ==> *p == old(store)@[old(this).id()].payload.unwrap() && final(store)@ == after_write(old(store)@, old(this).id(), *final(p))),
    ;

    /// One more strong owner of the allocation at address `ptr`, without
    /// materializing a handle. The caller answers for `ptr` denoting a live
    /// allocation, as for a raw handle obtained from `into_raw`.
    fn increment_strong_count(store: &mut Store<T>, ptr: usize)
        requires
            live(old(store)@, ptr as int),
            old(store)@[ptr as int].strong < usize::MAX,
        ensures
            final(store)@ == after_incr_strong(old(store)@, ptr as int),
    ;

    /// One strong owner of the allocation at address `ptr` fewer, without
    /// materializing a handle; drops the payload when it was the last one.
    /// The caller answers for `ptr` denoting a live allocation.
    fn decrement_strong_count(store: &mut Store<T>, ptr: usize)
        requires
            live(old(store)@, ptr as int),
        ensures
            final(store)@ == after_decr_strong(old(store)@, ptr as int),
    ;

    /// Turns this handle into its raw address. The strong share it owned
    /// stays with the address until `from_raw` takes it up again.
    fn into_raw(this: Self) -> (ptr: usize)
        ensures
            ptr == this.id(),
    ;

    /// A handle taken up again from a raw address. The caller answers for
    /// `ptr` coming from a matching `into_raw` of this family whose strong
    /// share was not otherwise given up.
    fn from_raw(store: &Store<T>, ptr: usize) -> (r: Self)
        requires
            live(store@, ptr as int),
        ensures
            r.id() == ptr,
    ;

    /// Cyclic construction: allocates first, hands the initializer the one
    /// weak handle of the not yet live allocation, and only then makes the
    /// payload the initializer built live under the first strong handle.
    /// The initializer owns the weak handle it receives and may store it in
    /// the payload; upgrading it before the construction finishes yields
    /// nothing, since the strong count is still zero.
    fn new_cyclic<F: FnOnce(Self::WeakPointer) -> T>(store: &mut Store<T>, data_fn: F) -> (r: Self)
        requires
            old(store)@.len() < usize::MAX,
            call_requires(data_fn, (Self::weak_to(old(store)@.len() as int),)),
        ensures
            r.id() == old(store)@.len(),
            exists|t: T|
                #[trigger] call_ensures(data_fn, (Self::weak_to(r.id()),), t) && final(store)@
                    == after_finish(after_pending(old(store)@), r.id(), t),
    ;

    /// A fresh allocation under a pinning promise: the payload's address
    /// will not change for the rest of its lifetime.
    fn pin(store: &mut Store<T>, value: T) -> (p: Pinned<Self>)
        requires
            old(store)@.len() < usize::MAX,
        ensures
            p.pointer.id() == old(store)@.len(),
            final(store)@ == after_allocate(old(store)@, value),
    ;

    /// The payload by value, if this handle is the only strong one; the
    /// handle is consumed either way, but on failure it comes back
    /// unchanged and no count moves.
    fn try_unwrap(this: Self, store: &mut Store<T>) -> (r: Result<T, Self>)
        requires
            live(old(store)@, this.id()),
            store_wf(old(store)@),
        ensures
            (r is Ok <==> old(store)@[this.id()].strong == 1),
            (r matches Ok(t) ==> Some(t) == old(store)@[this.id()].payload && final(store)@
                == after_unwrap(old(store)@, this.id())),
            (r matches Err(h) ==> h.id() == this.id() && final(store)@ == old(store)@),
    ;
}

/// The copy-on-write refinement for payload types that can be duplicated.
pub trait CloneSmartPointer<T: Clone>: RefCounted<T> {
    /// An exclusive borrow of a payload this handle alone owns. If the
    /// handle was the only one of its allocation, that payload is borrowed
    /// in place and the address stays. Otherwise the payload is duplicated
    /// into a fresh allocation, the handle moves over to it, and the old
    /// allocation keeps its other handles and its payload untouched, less
    /// this handle's strong share.
    fn make_mut<'a>(this: &mut Self, store: &'a mut Store<T>) -> (p: &'a mut T)
        requires
            live(old(store)@, old(this).id()),
            store_wf(old(store)@),
            old(store)@.len() < usize::MAX,
        ensures
            (old(store)@[old(this).id()].strong == 1 && old(store)@[old(this).id()].weak == 0)
                ==> (final(this).id() == old(this).id() && *p == old(store)@[old(this).id()].payload.unwrap() && final(store)@ == after_write(
                old(store)@,
                old(this).id(),
                *final(p),
            )),
            !(old(store)@[old(this).id()].strong == 1 && old(store)@[old(this).id()].weak == 0)
                ==> (final(this).id() == old(store)@.len() && cloned::<T>(
                old(store)@[old(this).id()].payload.unwrap(),
                *p,
            ) && final(store)@ == after_write(
                after_allocate(after_decr_strong(old(store)@, old(this).id()), *p),
                old(store)@.len() as int,
                *final(p),
            )),
    ;
}

/// A family of weak pointers: the factory for empty weak handles of one
/// flavor.
pub trait WeakFamily<T>: Sized {
    /// The weak pointer type of this flavor.
    type Pointer: WeakPointer<T>;

    /// An empty weak handle: it tracks no allocation and always fails to
    /// upgrade.
    fn new() -> (w: Self::Pointer)
        ensures
            w.target() is None,
    ;
}

/// A non-owning handle: it tracks an allocation without keeping the payload
/// alive, or tracks nothing at all.
pub trait WeakPointer<T>: Sized {
    /// The family of the paired strong pointer type.
    type StrongMark: SmartPointerFamily<T, Pointer = Self::StrongPointer>;

    /// The paired strong pointer type.
    type StrongPointer: SmartPointer<T>;

    /// The slot index this handle tracks, or `None` for an empty handle.
    spec fn target(&self) -> Option<int>;

    /// The address this handle compares and converts by.
    spec fn addr(&self) -> int;

    /// What `addr` is: the tracked slot index, or, for an empty handle,
    /// the sentinel no allocation can have.
    proof fn addr_agrees(&self)
        ensures
            self.addr() == (match self.target() {
                Some(i) => i,
                None => usize::MAX as int,
            }),
    ;

    /// The address of the tracked allocation, whether or not its payload is
    /// still live; the sentinel for an empty handle.
    fn as_ptr(&self) -> (a: usize)
        ensures
            a == self.addr(),
    ;

    /// A new weak handle tracking the same allocation, or empty like this
    /// one.
    fn clone(this: &Self, store: &mut Store<T>) -> (r: Self)
        requires
            this.target() matches Some(i) ==> i < old(store)@.len() && old(store)@[i].weak
                < usize::MAX,
        ensures
            r.target() == this.target(),
            this.target() matches Some(i) ==> final(store)@ == after_incr_weak(old(store)@, i),
            this.target() is None ==> final(store)@ == old(store)@,
    ;

    /// Gives this weak handle up; the payload's liveness is unaffected.
    fn release(this: Self, store: &mut Store<T>)
        requires
            this.target() matches Some(i) ==> i < old(store)@.len() && old(store)@[i].weak > 0,
        ensures
            this.target() matches Some(i) ==> final(store)@ == after_decr_weak(old(store)@, i),
            this.target() is None ==> final(store)@ == old(store)@,
    ;

    /// A new strong handle of the tracked allocation, if its payload is
    /// still live at the moment of the call; the check and the increment
    /// are one step.
    fn upgrade(&self, store: &mut Store<T>) -> (r: Option<Self::StrongPointer>)
        requires
            self.target() matches Some(i) ==> i < old(store)@.len() && old(store)@[i].strong
                < usize::MAX,
        ensures
            (r is Some <==> (self.target() matches Some(i) && live(old(store)@, i))),
            (r matches Some(h) ==> h.id() == self.target().unwrap() && final(store)@
                == after_incr_strong(old(store)@, self.target().unwrap())),
            r is None ==> final(store)@ == old(store)@,
    ;

    /// The strong count of the tracked allocation; zero for an empty
    /// handle.
    fn strong_count(&self, store: &Store<T>) -> (n: usize)
        requires
            self.target() matches Some(i) ==> i < store@.len(),
        ensures
            self.target() matches Some(i) ==> n == store@[i].strong,
            self.target() is None ==> n == 0,
    ;

    /// The weak count of the tracked allocation, as long as any strong
    /// handle remains; zero once the payload is gone, and zero for an empty
    /// handle.
    fn weak_count(&self, store: &Store<T>) -> (n: usize)
        requires
            self.target() matches Some(i) ==> i < store@.len(),
        ensures
            self.target() matches Some(i) ==> n == (if store@[i].strong > 0 {
                store@[i].weak
            } else {
                0
            }),
            self.target() is None ==> n == 0,
    ;

    /// True exactly when both handles track the same allocation, by address
    /// comparison, not by payload equality; two empty handles compare
    /// equal.
    fn ptr_eq(&self, other: &Self) -> (r: bool)
        ensures
            r == (self.addr() == other.addr()),
    ;

    /// Turns this weak handle into its raw address; the weak share it owned
    /// stays with the address until `from_raw` takes it up again. An empty
    /// handle turns into the sentinel.
    fn into_raw(this: Self) -> (ptr: usize)
        ensures
            ptr == this.addr(),
    ;

    /// A weak handle taken up again from a raw address; the sentinel yields
    /// an empty handle. The caller answers for `ptr` coming from a matching
    /// `into_raw` of this family whose weak share was not otherwise given
    /// up.
    fn from_raw(store: &Store<T>, ptr: usize) -> (r: Self)
        requires
            ptr == usize::MAX || (ptr as int) < store@.len(),
        ensures
            ptr == usize::MAX ==> r.target() is None,
            ptr != usize::MAX ==> r.target() == Some(ptr as int),
    ;
}

} // verus!
