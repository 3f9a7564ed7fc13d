//! The reference-count discipline of opaque object handles.
//!
//! A struct-backed object lives on the host side as a wrapper holding one
//! opaque native pointer.  Every method call first obtains a cloned
//! reference-counted pointer, which the native side consumes, so the native
//! library never observes a handle the host has already scheduled for
//! collection.  Disposal detaches the finalizer and frees the pointer
//! exactly once; a second disposal, or the finalizer running after an
//! explicit disposal, is a no-op.

use vstd::prelude::*;

verus! {

/// The ledger of reference-count events the native side has seen for one
/// object: how many clones were taken and how many owned references were
/// given back.
#[derive(Clone, Copy, Debug, PartialEq, Eq, Structural)]
pub struct RcLedger {
    pub clones: u64,
    pub frees: u64,
}

/// The host-side wrapper of one native object: its pointer magnitude and
/// whether it was already disposed (finalizer detached, pointer freed).
#[derive(Clone, Copy, Debug, PartialEq, Eq, Structural)]
pub struct ObjectWrapper {
    pub ptr: u64,
    pub disposed: bool,
}

/// What disposing a wrapper does: nothing on an already-disposed wrapper,
/// else it marks the wrapper disposed and records exactly one free.
pub open spec fn spec_dispose(w: ObjectWrapper, l: RcLedger) -> (ObjectWrapper, RcLedger) {
    if w.disposed {
        (w, l)
    } else {
        (
            ObjectWrapper { ptr: w.ptr, disposed: true },
            RcLedger { clones: l.clones, frees: (l.frees + 1) as u64 },
        )
    }
}

/// Clone the native pointer for use as a call receiver: the address is
/// unchanged and the native side has one more reference to balance.
pub fn clone_pointer(w: &ObjectWrapper, l: &mut RcLedger) -> (p: u64)
    requires
        !w.disposed,
        old(l).clones < u64::MAX,
    ensures
        p == w.ptr,
        final(l).clones == old(l).clones + 1,
        final(l).frees == old(l).frees,
{
    l.clones = l.clones + 1;
    w.ptr
}

/// The native side consumes one owned reference, as it does with the cloned
/// receiver of every method call.
pub fn native_consume(l: &mut RcLedger)
    requires
        old(l).frees < u64::MAX,
    ensures
        final(l).clones == old(l).clones,
        final(l).frees == old(l).frees + 1,
{
    l.frees = l.frees + 1;
}

/// One whole method call on a live wrapper: the reference count is
/// incremented once by the clone and balanced once by the native side, with
/// no extra free on the host side.
pub fn invoke_method(w: &ObjectWrapper, l: &mut RcLedger)
    requires
        !w.disposed,
        old(l).clones < u64::MAX,
        old(l).frees < u64::MAX,
    ensures
        final(l).clones == old(l).clones + 1,
        final(l).frees == old(l).frees + 1,
{
    let receiver = clone_pointer(w, l);
    native_consume(l);
}

/// Dispose a wrapper: detach the finalizer, then free the pointer — but
/// only the first time; disposing twice performs exactly one free.
pub fn dispose(w: &mut ObjectWrapper, l: &mut RcLedger) -> (freed: bool)
    requires
        old(l).frees < u64::MAX,
    ensures
        (*final(w), *final(l)) == spec_dispose(*old(w), *old(l)),
        freed == !old(w).disposed,
{
    if w.disposed {
        false
    } else {
        w.disposed = true;
        l.frees = l.frees + 1;
        true
    }
}

/// The garbage-collection finalizer: frees the pointer only when the
/// wrapper was never explicitly disposed, so an unreferenced wrapper still
/// releases its native resource, and never doubles an explicit disposal.
pub fn run_finalizer(w: &mut ObjectWrapper, l: &mut RcLedger) -> (freed: bool)
    requires
        old(l).frees < u64::MAX,
    ensures
        (*final(w), *final(l)) == spec_dispose(*old(w), *old(l)),
        freed == !old(w).disposed,
{
    dispose(w, l)
}

/// Disposing a live wrapper twice performs exactly one native free: the
/// second disposal finds the wrapper already disposed and changes nothing.
pub proof fn lemma_dispose_twice_frees_once(w: ObjectWrapper, l: RcLedger)
    requires
        !w.disposed,
        l.frees < u64::MAX,
    ensures
        ({
            let (w1, l1) = spec_dispose(w, l);
            let (w2, l2) = spec_dispose(w1, l1);
            l2.frees == l.frees + 1 && l2.clones == l.clones && w2.disposed
        }),
{
}

} // verus!
