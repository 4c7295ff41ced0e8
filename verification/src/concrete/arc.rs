//! The shared flavor. [`ArcMark`] is the family marker; this flavor's
//! contract is that clones of a handle may be handed to independently
//! scheduled threads, with the count updates and the upgrade check atomic.
//! The store model serializes every operation through exclusive access to
//! the store, so both flavors share one verified semantics; the marker
//! records which concurrency contract a consumer selects, and the model
//! neither adds synchronization of its own nor assumes exclusivity the
//! flavor does not provide.

use core::marker::PhantomData;
use vstd::prelude::*;

use crate::store::Store;
use crate::store::after_finish;
use crate::store::after_pending;
use crate::traits::CloneSmartPointer;
use crate::traits::Pinned;
use crate::traits::RefCounted;
use crate::traits::SmartPointer;
use crate::traits::SmartPointerFamily;
use crate::traits::WeakFamily;
use crate::traits::WeakPointer;

verus! {

/// The family marker of the shared flavor.
pub struct ArcMark;

/// The weak family marker of the shared flavor.
pub struct WeakArcMark;

/// A strong handle of the shared flavor.
pub struct ArcHandle<T> {
    ix: usize,
    family: PhantomData<T>,
}

/// A weak handle of the shared flavor.
pub struct WeakArcHandle<T> {
    target_ix: Option<usize>,
    family: PhantomData<T>,
}

impl<T> SmartPointer<T> for ArcHandle<T> {
    closed spec fn id(&self) -> int {
        self.ix as int
    }

    fn get<'a>(this: &Self, store: &'a Store<T>) -> (r: &'a T) {
        store.read(this.ix)
    }
}

impl<T> SmartPointerFamily<T> for ArcMark {
    type Pointer = ArcHandle<T>;

    fn new(store: &mut Store<T>, value: T) -> (p: ArcHandle<T>) {
        let i = store.allocate(value);
        ArcHandle { ix: i, family: PhantomData }
    }
}

impl<T> RefCounted<T> for ArcHandle<T> {
    type StrongMark = ArcMark;

    type WeakPointer = WeakArcHandle<T>;

    closed spec fn weak_to(i: int) -> WeakArcHandle<T> {
        WeakArcHandle { target_ix: Some(i as usize), family: PhantomData }
    }

    proof fn weak_to_targets(i: int) {
    }

    fn as_ptr(this: &Self) -> (a: usize) {
        this.ix
    }

    fn clone(this: &Self, store: &mut Store<T>) -> (r: Self) {
        store.incr_strong(this.ix);
        ArcHandle { ix: this.ix, family: PhantomData }
    }

    fn release(this: Self, store: &mut Store<T>) {
        store.decr_strong(this.ix);
    }

    fn downgrade(this: &Self, store: &mut Store<T>) -> (w: WeakArcHandle<T>) {
        store.incr_weak(this.ix);
        WeakArcHandle { target_ix: Some(this.ix), family: PhantomData }
    }

    fn strong_count(this: &Self, store: &Store<T>) -> (n: usize) {
        store.strong_at(this.ix)
    }

    fn weak_count(this: &Self, store: &Store<T>) -> (n: usize) {
        store.weak_at(this.ix)
    }

    fn get_mut<'a>(this: &mut Self, store: &'a mut Store<T>) -> (r: Option<&'a mut T>) {
        store.exclusive_payload_mut(this.ix)
    }

    fn increment_strong_count(store: &mut Store<T>, ptr: usize) {
        store.incr_strong(ptr);
    }

    fn decrement_strong_count(store: &mut Store<T>, ptr: usize) {
        store.decr_strong(ptr);
    }

    fn into_raw(this: Self) -> (ptr: usize) {
        this.ix
    }

    fn from_raw(store: &Store<T>, ptr: usize) -> (r: Self) {
        ArcHandle { ix: ptr, family: PhantomData }
    }

    fn new_cyclic<F: FnOnce(WeakArcHandle<T>) -> T>(store: &mut Store<T>, data_fn: F) -> (r: Self) {
        let i = store.allocate_pending();
        let w = WeakArcHandle { target_ix: Some(i), family: PhantomData };
        let ghost seed = w;
        proof {
            assert(seed == Self::weak_to(old(store)@.len() as int));
        }
        let value = data_fn(w);
        let ghost built = value;
        store.finish_pending(i, value);
        let r = ArcHandle { ix: i, family: PhantomData };
        proof {
            assert(call_ensures(data_fn, (Self::weak_to(r.id()),), built) && store@
                == after_finish(after_pending(old(store)@), r.id(), built));
        }
        r
    }

    fn pin(store: &mut Store<T>, value: T) -> (p: Pinned<Self>) {
        let i = store.allocate(value);
        Pinned { pointer: ArcHandle { ix: i, family: PhantomData } }
    }

    fn try_unwrap(this: Self, store: &mut Store<T>) -> (r: Result<T, Self>) {
        if store.strong_at(this.ix) == 1 {
            Ok(store.take_last(this.ix))
        } else {
            Err(this)
        }
    }
}

impl<T: Clone> CloneSmartPointer<T> for ArcHandle<T> {
    fn make_mut<'a>(this: &mut Self, store: &'a mut Store<T>) -> (p: &'a mut T) {
        if store.strong_at(this.ix) == 1 && store.weak_at(this.ix) == 0 {
            store.payload_mut(this.ix)
        } else {
            let duplicate = store.read(this.ix).clone();
            store.decr_strong(this.ix);
            let j = store.allocate(duplicate);
            this.ix = j;
            store.payload_mut(j)
        }
    }
}

impl<T> WeakFamily<T> for WeakArcMark {
    type Pointer = WeakArcHandle<T>;

    fn new() -> (w: WeakArcHandle<T>) {
        WeakArcHandle { target_ix: None, family: PhantomData }
    }
}

impl<T> WeakPointer<T> for WeakArcHandle<T> {
    type StrongMark = ArcMark;

    type StrongPointer = ArcHandle<T>;

    closed spec fn target(&self) -> Option<int> {
        match self.target_ix {
            Some(i) => Some(i as int),
            None => None,
        }
    }

    closed spec fn addr(&self) -> int {
        match self.target_ix {
            Some(i) => i as int,
            None => usize::MAX as int,
        }
    }

    proof fn addr_agrees(&self) {
    }

    fn as_ptr(&self) -> (a: usize) {
        match self.target_ix {
            Some(i) => i,
            None => usize::MAX,
        }
    }

    fn clone(this: &Self, store: &mut Store<T>) -> (r: Self) {
        match this.target_ix {
            Some(i) => {
                store.incr_weak(i);
                WeakArcHandle { target_ix: Some(i), family: PhantomData }
            },
            None => WeakArcHandle { target_ix: None, family: PhantomData },
        }
    }

    fn release(this: Self, store: &mut Store<T>) {
        match this.target_ix {
            Some(i) => store.decr_weak(i),
            None => (),
        }
    }

    fn upgrade(&self, store: &mut Store<T>) -> (r: Option<ArcHandle<T>>) {
        match self.target_ix {
            Some(i) => {
                if store.try_upgrade(i) {
                    Some(ArcHandle { ix: i, family: PhantomData })
                } else {
                    None
                }
            },
            None => None,
        }
    }

    fn strong_count(&self, store: &Store<T>) -> (n: usize) {
        match self.target_ix {
            Some(i) => store.strong_at(i),
            None => 0,
        }
    }

    fn weak_count(&self, store: &Store<T>) -> (n: usize) {
        match self.target_ix {
            Some(i) => {
                if store.strong_at(i) > 0 {
                    store.weak_at(i)
                } else {
                    0
                }
            },
            None => 0,
        }
    }

    fn ptr_eq(&self, other: &Self) -> (r: bool) {
        self.as_ptr() == other.as_ptr()
    }

    fn into_raw(this: Self) -> (ptr: usize) {
        match this.target_ix {
            Some(i) => i,
            None => usize::MAX,
        }
    }

    fn from_raw(store: &Store<T>, ptr: usize) -> (r: Self) {
        if ptr == usize::MAX {
            WeakArcHandle { target_ix: None, family: PhantomData }
        } else {
            WeakArcHandle { target_ix: Some(ptr), family: PhantomData }
        }
    }
}


} // verus!
