//! The orchestrator that runs guest modules in this process.
use vstd::prelude::*;

verus! {

/// The handle of the native containers. It holds no state: the modules and
/// their instances live with the runtime that executes them.
#[derive(Clone, Copy)]
pub struct NativeContainers;

impl NativeContainers {
    pub fn new() -> (r: Self)
        ensures
            r == NativeContainers,
    {
        NativeContainers
    }
}

} // verus!
