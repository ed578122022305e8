use vstd::prelude::*;

verus! {

/// A memory management unit with no state; its accessors were never written.
pub struct Mmu {}

impl Mmu {
    pub fn new() -> (r: Mmu)
        ensures
            r == (Mmu {}),
    {
        Mmu {}
    }
}

} // verus!
