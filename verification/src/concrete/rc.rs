//! The single-owner flavor. [`RcMark`] is the family marker; a handle of
//! this flavor is meant to stay with one logical owner at a time, and its
//! count updates are plain reads and writes of its store.

use core::marker::PhantomData;
use vstd::prelude::*;

use crate::store::Store;
use crate::store::after_finish;
use crate::store::after_pending;
use crate::traits::CloneSmartPointer;
use crate::traits::Pinned;
use crate::traits::RefCounted;
use crate::traits::SmartPointer;
use crate::traits::SmartPointerFamily;
use crate::traits::WeakFamily;
use crate::traits::WeakPointer;

verus! {

/// The family marker of the single-owner flavor.
pub struct RcMark;

/// The weak family marker of the single-owner flavor.
pub struct WeakRcMark;

/// A strong handle of the single-owner flavor.
pub struct RcHandle<T> {
    ix: usize,
    family: PhantomData<T>,
}

/// A weak handle of the single-owner flavor.
pub struct WeakRcHandle<T> {
    target_ix: Option<usize>,
    family: PhantomData<T>,
}

impl<T> SmartPointer<T> for RcHandle<T> {
    closed spec fn id(&self) -> int {
        self.ix as int
    }

    fn get<'a>(this: &Self, store: &'a Store<T>) -> (r: &'a T) {
        store.read(this.ix)
    }
}

impl<T> SmartPointerFamily<T> for RcMark {
    type Pointer = RcHandle<T>;

    fn new(store: &mut Store<T>, value: T) -> (p: RcHandle<T>) {
        let i = store.allocate(value);
        RcHandle { ix: i, family: PhantomData }
    }
}

impl<T> RefCounted<T> for RcHandle<T> {
    type StrongMark = RcMark;

    type WeakPointer = WeakRcHandle<T>;

    closed spec fn weak_to(i: int) -> WeakRcHandle<T> {
        WeakRcHandle { target_ix: Some(i as usize), family: PhantomData }
    }

    proof fn weak_to_targets(i: int) {
    }

    fn as_ptr(this: &Self) -> (a: usize) {
        this.ix
    }

    fn clone(this: &Self, store: &mut Store<T>) -> (r: Self) {
        store.incr_strong(this.ix);
        RcHandle { ix: this.ix, family: PhantomData }
    }

    fn release(this: Self, store: &mut Store<T>) {
        store.decr_strong(this.ix);
    }

    fn downgrade(this: &Self, store: &mut Store<T>) -> (w: WeakRcHandle<T>) {
        store.incr_weak(this.ix);
        WeakRcHandle { target_ix: Some(this.ix), family: PhantomData }
    }

    fn strong_count(this: &Self, store: &Store<T>) -> (n: usize) {
        store.strong_at(this.ix)
    }

    fn weak_count(this: &Self, store: &Store<T>) -> (n: usize) {
        store.weak_at(this.ix)
    }

    fn get_mut<'a>(this: &mut Self, store: &'a mut Store<T>) -> (r: Option<&'a mut T>) {
        store.exclusive_payload_mut(this.ix)
    }

    fn increment_strong_count(store: &mut Store<T>, ptr: usize) {
        store.incr_strong(ptr);
    }

    fn decrement_strong_count(store: &mut Store<T>, ptr: usize) {
        store.decr_strong(ptr);
    }

    fn into_raw(this: Self) -> (ptr: usize) {
        this.ix
    }

    fn from_raw(store: &Store<T>, ptr: usize) -> (r: Self) {
        RcHandle { ix: ptr, family: PhantomData }
    }

    fn new_cyclic<F: FnOnce(WeakRcHandle<T>) -> T>(store: &mut Store<T>, data_fn: F) -> (r: Self) {
        let i = store.allocate_pending();
        let w = WeakRcHandle { target_ix: Some(i), family: PhantomData };
        let ghost seed = w;
        proof {
            assert(seed == Self::weak_to(old(store)@.len() as int));
        }
        let value = data_fn(w);
        let ghost built = value;
        store.finish_pending(i, value);
        let r = RcHandle { ix: i, family: PhantomData };
        proof {
            assert(call_ensures(data_fn, (Self::weak_to(r.id()),), built) && store@
                == after_finish(after_pending(old(store)@), r.id(), built));
        }
        r
    }

    fn pin(store: &mut Store<T>, value: T) -> (p: Pinned<Self>) {
        let i = store.allocate(value);
        Pinned { pointer: RcHandle { ix: i, family: PhantomData } }
    }

    fn try_unwrap(this: Self, store: &mut Store<T>) -> (r: Result<T, Self>) {
        if store.strong_at(this.ix) == 1 {
            Ok(store.take_last(this.ix))
        } else {
            Err(this)
        }
    }
}

impl<T: Clone> CloneSmartPointer<T> for RcHandle<T> {
    fn make_mut<'a>(this: &mut Self, store: &'a mut Store<T>) -> (p: &'a mut T) {
        if store.strong_at(this.ix) == 1 && store.weak_at(this.ix) == 0 {
            store.payload_mut(this.ix)
        } else {
            let duplicate = store.read(this.ix).clone();
            store.decr_strong(this.ix);
            let j = store.allocate(duplicate);
            this.ix = j;
            store.payload_mut(j)
        }
    }
}

impl<T> WeakFamily<T> for WeakRcMark {
    type Pointer = WeakRcHandle<T>;

    fn new() -> (w: WeakRcHandle<T>) {
        WeakRcHandle { target_ix: None, family: PhantomData }
    }
}

impl<T> WeakPointer<T> for WeakRcHandle<T> {
    type StrongMark = RcMark;

    type StrongPointer = RcHandle<T>;

    closed spec fn target(&self) -> Option<int> {
        match self.target_ix {
            Some(i) => Some(i as int),
            None => None,
        }
    }

    closed spec fn addr(&self) -> int {
        match self.target_ix {
            Some(i) => i as int,
            None => usize::MAX as int,
        }
    }

    proof fn addr_agrees(&self) {
    }

    fn as_ptr(&self) -> (a: usize) {
        match self.target_ix {
            Some(i) => i,
            None => usize::MAX,
        }
    }

    fn clone(this: &Self, store: &mut Store<T>) -> (r: Self) {
        match this.target_ix {
            Some(i) => {
                store.incr_weak(i);
                WeakRcHandle { target_ix: Some(i), family: PhantomData }
            },
            None => WeakRcHandle { target_ix: None, family: PhantomData },
        }
    }

    fn release(this: Self, store: &mut Store<T>) {
        match this.target_ix {
            Some(i) => store.decr_weak(i),
            None => (),
        }
    }

    fn upgrade(&self, store: &mut Store<T>) -> (r: Option<RcHandle<T>>) {
        match self.target_ix {
            Some(i) => {
                if store.try_upgrade(i) {
                    Some(RcHandle { ix: i, family: PhantomData })
                } else {
                    None
                }
            },
            None => None,
        }
    }

    fn strong_count(&self, store: &Store<T>) -> (n: usize) {
        match self.target_ix {
            Some(i) => store.strong_at(i),
            None => 0,
        }
    }

    fn weak_count(&self, store: &Store<T>) -> (n: usize) {
        match self.target_ix {
            Some(i) => {
                if store.strong_at(i) > 0 {
                    store.weak_at(i)
                } else {
                    0
                }
            },
            None => 0,
        }
    }

    fn ptr_eq(&self, other: &Self) -> (r: bool) {
        self.as_ptr() == other.as_ptr()
    }

    fn into_raw(this: Self) -> (ptr: usize) {
        match this.target_ix {
            Some(i) => i,
            None => usize::MAX,
        }
    }

    fn from_raw(store: &Store<T>, ptr: usize) -> (r: Self) {
        if ptr == usize::MAX {
            WeakRcHandle { target_ix: None, family: PhantomData }
        } else {
            WeakRcHandle { target_ix: Some(ptr), family: PhantomData }
        }
    }
}


} // verus!
