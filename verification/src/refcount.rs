//! The ownership protocol between host values and the engine's reference
//! counts.
//!
//! A host value that wraps a counted word owns exactly one unit of that
//! word's count.  The functions here say which operation on the engine's
//! count each step of a value's life asks for; the model below says what
//! such an operation does to the counts.

use vstd::prelude::*;
use crate::tag::{spec_has_ref_count, has_ref_count};

verus! {

/// An operation on the engine's reference count of one word.
#[derive(Debug, Clone, Copy, PartialEq, Eq, Structural)]
pub enum RefOp {
    /// The word is not counted: nothing is to be done.
    Nothing,
    /// Add one unit to the count of this word.
    Dup(u64),
    /// Take one unit from the count of this word; the engine frees the
    /// object when none is left.
    Free(u64),
}

/// The units that the model holds for a word; a word that is absent has none
/// and its object is gone.
pub open spec fn units(counts: Map<u64, nat>, raw: u64) -> nat {
    if counts.dom().contains(raw) {
        counts[raw]
    } else {
        0
    }
}

/// An object is alive while at least one unit of its count is held.
pub open spec fn alive(counts: Map<u64, nat>, raw: u64) -> bool {
    units(counts, raw) > 0
}

/// The counts after an operation.
pub open spec fn after(counts: Map<u64, nat>, op: RefOp) -> Map<u64, nat> {
    match op {
        RefOp::Nothing => counts,
        RefOp::Dup(raw) => counts.insert(raw, units(counts, raw) + 1),
        RefOp::Free(raw) => if units(counts, raw) <= 1 {
            counts.remove(raw)
        } else {
            counts.insert(raw, (units(counts, raw) - 1) as nat)
        },
    }
}

/// The operation that takes a further unit of a word.
pub open spec fn spec_acquire(raw: u64) -> RefOp {
    if spec_has_ref_count(raw) {
        RefOp::Dup(raw)
    } else {
        RefOp::Nothing
    }
}

/// The operation that gives a unit of a word back.
pub open spec fn spec_release(raw: u64) -> RefOp {
    if spec_has_ref_count(raw) {
        RefOp::Free(raw)
    } else {
        RefOp::Nothing
    }
}

/// The operation by which a second owner of the word comes into being.
pub fn acquire(raw: u64) -> (op: RefOp)
    ensures
        op == spec_acquire(raw),
{
    if has_ref_count(raw) {
        RefOp::Dup(raw)
    } else {
        RefOp::Nothing
    }
}

/// The operation by which an owner of the word gives its unit up.
pub fn release(raw: u64) -> (op: RefOp)
    ensures
        op == spec_release(raw),
{
    if has_ref_count(raw) {
        RefOp::Free(raw)
    } else {
        RefOp::Nothing
    }
}

/// Taking a unit of a word and giving it back leaves every count, and with
/// it the life of every object, as it was.  The word's owner holds a unit
/// throughout, so the object is never freed in between.
pub proof fn lemma_acquire_release_round_trip(counts: Map<u64, nat>, raw: u64)
    requires
        spec_has_ref_count(raw) ==> alive(counts, raw),
    ensures
        after(after(counts, spec_acquire(raw)), spec_release(raw)) == counts,
        forall|w: u64| units(after(counts, spec_acquire(raw)), w) >= units(counts, w),
        alive(after(counts, spec_acquire(raw)), raw) == alive(counts, raw),
{
    let mid = after(counts, spec_acquire(raw));
    let end = after(mid, spec_release(raw));
    if spec_has_ref_count(raw) {
        assert(units(mid, raw) == units(counts, raw) + 1);
        assert(end =~= counts);
    }
}

/// Giving up the only unit of a word frees its object; giving up one of
/// several does not.
pub proof fn lemma_release_frees_last(counts: Map<u64, nat>, raw: u64)
    requires
        spec_has_ref_count(raw),
        alive(counts, raw),
    ensures
        units(after(counts, spec_release(raw)), raw) == units(counts, raw) - 1,
        alive(after(counts, spec_release(raw)), raw) <==> units(counts, raw) > 1,
        forall|w: u64| w != raw ==> units(after(counts, spec_release(raw)), w) == units(counts, w),
{
}

} // verus!
