//! The general laws of the pointer model, stated over the store
//! transitions that the operation contracts promise and over the handle
//! identities their ensures speak of.

use vstd::prelude::*;

use crate::store::Slot;
use crate::store::after_allocate;
use crate::store::after_decr_strong;
use crate::store::after_finish;
use crate::store::after_incr_strong;
use crate::store::after_incr_weak;
use crate::store::after_pending;
use crate::store::live;
use crate::store::store_wf;
use crate::traits::RefCounted;
use crate::traits::SmartPointer;
use crate::traits::WeakPointer;

verus! {

/// A fresh allocation, of either family, starts with strong count 1 and
/// weak count 0, and holds exactly the value it was given. The rest of the
/// store is untouched, and well-formedness is preserved.
pub proof fn law_new_counts<T>(slots: Seq<Slot<T>>, value: T)
    requires
        store_wf(slots),
    ensures
        ({
            let s1 = after_allocate(slots, value);
            &&& s1[slots.len() as int].strong == 1
            &&& s1[slots.len() as int].weak == 0
            &&& s1[slots.len() as int].payload == Some(value)
            &&& forall|j: int| 0 <= j < slots.len() ==> s1[j] == slots[j]
            &&& store_wf(s1)
        }),
{
}

/// Cloning a strong handle raises its allocation's strong count by exactly
/// one and leaves its weak count unchanged; releasing that clone brings the
/// store back to exactly where it was.
pub proof fn law_clone_release<T>(slots: Seq<Slot<T>>, i: int)
    requires
        live(slots, i),
        slots[i].strong < usize::MAX,
    ensures
        after_incr_strong(slots, i)[i].strong == slots[i].strong + 1,
        after_incr_strong(slots, i)[i].weak == slots[i].weak,
        after_decr_strong(after_incr_strong(slots, i), i) == slots,
        store_wf(slots) ==> store_wf(after_incr_strong(slots, i)),
{
    assert(after_decr_strong(after_incr_strong(slots, i), i) =~= slots);
}

/// Downgrading a strong handle of a live allocation leaves it live, so the
/// weak handle the downgrade yields upgrades successfully, and the upgrade
/// hands back the very payload the original strong handle sees.
pub proof fn law_downgrade_upgrade<T>(slots: Seq<Slot<T>>, i: int)
    requires
        live(slots, i),
        slots[i].weak < usize::MAX,
        slots[i].strong < usize::MAX,
    ensures
        live(after_incr_weak(slots, i), i),
        after_incr_strong(after_incr_weak(slots, i), i)[i].payload == slots[i].payload,
        store_wf(slots) ==> store_wf(after_incr_strong(after_incr_weak(slots, i), i)),
{
}

/// Two handles of one allocation share one address: the address and the
/// counts are functions of the tracked slot alone. In particular a handle
/// reconstructed by `from_raw` from `into_raw`, which have the same slot by
/// their contracts, answers `as_ptr`, `strong_count` and `weak_count`
/// exactly as the handle that was converted did.
pub proof fn law_raw_round_trip<T, P: RefCounted<T>>(slots: Seq<Slot<T>>, h: P, r: P)
    requires
        r.id() == h.id(),
    ensures
        slots[r.id()].strong == slots[h.id()].strong,
        slots[r.id()].weak == slots[h.id()].weak,
{
}

/// Releasing the last strong handle of an allocation empties it: the
/// payload is dropped, and the allocation is no longer live, so an upgrade
/// of any weak handle to it now yields nothing.
pub proof fn law_release_last_then_upgrade<T>(slots: Seq<Slot<T>>, i: int)
    requires
        live(slots, i),
        slots[i].strong == 1,
    ensures
        !live(after_decr_strong(slots, i), i),
        after_decr_strong(slots, i)[i].payload is None,
        store_wf(slots) ==> store_wf(after_decr_strong(slots, i)),
{
}

/// A finished cyclic construction leaves its allocation live under one
/// strong handle, with the initializer's weak handle as the one weak
/// handle, and with exactly the payload the initializer built. That weak
/// handle therefore upgrades successfully from now on.
pub proof fn law_cyclic_weak_upgrades<T>(slots: Seq<Slot<T>>, value: T)
    requires
        store_wf(slots),
    ensures
        ({
            let s1 = after_finish(after_pending(slots), slots.len() as int, value);
            &&& live(s1, slots.len() as int)
            &&& s1[slots.len() as int].strong == 1
            &&& s1[slots.len() as int].weak == 1
            &&& s1[slots.len() as int].payload == Some(value)
            &&& forall|j: int| 0 <= j < slots.len() ==> s1[j] == slots[j]
            &&& store_wf(s1)
        }),
{
}

/// Weak handles compare by address: any weak handle tracking the
/// allocation of strong handle `h`, such as the one a cyclic construction
/// handed its initializer, is pointer-equal to any weak handle a later
/// downgrade of `h` yields.
pub proof fn law_weak_matches_downgrade<T, W: WeakPointer<T>>(w: W, d: W, h: W::StrongPointer)
    requires
        w.target() == Some(h.id()),
        d.target() == Some(h.id()),
    ensures
        w.addr() == d.addr(),
{
    w.addr_agrees();
    d.addr_agrees();
}

} // verus!
