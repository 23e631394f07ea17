//! The handle of the engine's allocator and collector state.

use vstd::prelude::*;
use crate::error::Error;

verus! {

/// One engine runtime, named by the address that the engine gave it.
///
/// A handle made by `new` owns the runtime: when the last such handle goes,
/// the runtime is released.  A handle made by `borrow_raw_unchecked` stands
/// for a runtime that somebody else owns and never releases it.
#[derive(Debug, Clone, Copy, PartialEq, Eq)]
pub struct Runtime {
    ptr: usize,
    owner: bool,
}

impl Runtime {
    /// The engine's address of the runtime.
    pub closed spec fn spec_ptr(&self) -> usize {
        self.ptr
    }

    /// Whether the handle owns the runtime.
    pub closed spec fn spec_owner(&self) -> bool {
        self.owner
    }

    /// Wraps the runtime that the engine returned; the null address means
    /// that the engine could not make one.
    pub fn new(ptr: usize) -> (res: Result<Runtime, Error>)
        ensures
            ptr == 0 ==> res == Err::<Runtime, Error>(Error::RuntimeInit),
            ptr != 0 ==> res is Ok && res.unwrap().spec_ptr() == ptr && res.unwrap().spec_owner(),
    {
        if ptr == 0 {
            return Err(Error::RuntimeInit);
        }
        Ok(Runtime { ptr, owner: true })
    }

    /// Stands for a runtime that the engine owns, without taking a share in it.
    pub fn borrow_raw_unchecked(rt: usize) -> (res: Runtime)
        ensures
            res.spec_ptr() == rt,
            !res.spec_owner(),
    {
        Runtime { ptr: rt, owner: false }
    }

    /// Returns the engine's address of the runtime.
    pub fn ptr(&self) -> (p: usize)
        ensures
            p == self.spec_ptr(),
    {
        self.ptr
    }

    /// Whether the runtime is to be released when the last copy of this
    /// handle goes.
    pub fn is_owner(&self) -> (o: bool)
        ensures
            o == self.spec_owner(),
    {
        self.owner
    }
}

} // verus!
