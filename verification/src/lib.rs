//! Scoped, runtime-sized scratch allocation delivered to a one-shot closure.
//!
//! Each entry point obtains a fresh buffer, hands it to a caller-supplied
//! closure, runs that closure exactly once, and returns its result by value.
//! The buffer is scoped strictly to the dynamic extent of the closure call.
//!
//! The native stack-growth primitive itself — a C routine reached over a raw
//! function-pointer ABI — sits below the memory-safety boundary and cannot be
//! expressed here; the bridge onto it lives with the program around this
//! library. What this crate states and proves is everything above that line:
//! the region a closure receives has exactly the requested length, the zeroing
//! entry point delivers all-zero bytes, the typed entry point delivers an
//! empty slot, the result of the closure is the result of the call, and the
//! consume-once discipline of the capsule and result slots.

use vstd::prelude::*;

pub mod align;
pub mod region;
pub mod slot;

use crate::region::zero_bytes;
use crate::region::StackRegion;
use crate::slot::OnceSlot;

verus! {

/// Allocates a scratch region of `size` bytes and invokes `f` with it,
/// exactly once, returning `f`'s result.
///
/// The region's contents are unspecified: `f` must accept any bytes. A size
/// of zero is valid and delivers a zero-length region; `f` still runs once.
pub fn with_alloca<R, F: FnOnce(StackRegion) -> R>(size: usize, f: F) -> (r: R)
    requires
        forall|region: StackRegion| region@.len() == size ==> call_requires(f, (region,)),
    ensures
        exists|region: StackRegion| region@.len() == size && call_ensures(f, (region,), r),
{
    let region = StackRegion::new(size);
    f(region)
}

/// Allocates a scratch region of `size` bytes, writes zero to every byte,
/// and invokes `f` with it, exactly once, returning `f`'s result.
///
/// Built on the raw entry point: the zeroing pass runs inside the callback,
/// so `f` may rely on every byte reading as zero before its own writes.
pub fn with_alloca_zeroed<R, F: FnOnce(StackRegion) -> R>(size: usize, f: F) -> (r: R)
    requires
        forall|region: StackRegion| region@ == zero_bytes(size as nat) ==> call_requires(
            f,
            (region,),
        ),
    ensures
        exists|region: StackRegion| region@ == zero_bytes(size as nat) && call_ensures(
            f,
            (region,),
            r,
        ),
{
    let g = |raw: StackRegion| -> (res: R)
        requires
            raw@.len() == size,
        ensures
            exists|region: StackRegion| region@ == zero_bytes(size as nat) && call_ensures(
                f,
                (region,),
                res,
            ),
        {
            let mut region = raw;
            region.zero_fill();
            f(region)
        };
    with_alloca(size, g)
}

/// Allocates a slot for one value of type `T` and invokes `f` with it,
/// exactly once, returning `f`'s result.
///
/// The slot arrives empty: storage for a `T` that holds no value yet. `f`
/// may set it, read what it set, and let it drop with the call.
pub fn alloca<T, R, F: FnOnce(OnceSlot<T>) -> R>(f: F) -> (r: R)
    requires
        forall|slot: OnceSlot<T>| slot@ is None ==> call_requires(f, (slot,)),
    ensures
        exists|slot: OnceSlot<T>| slot@ is None && call_ensures(f, (slot,), r),
{
    let slot = OnceSlot::<T>::empty();
    f(slot)
}

} // verus!
