use vstd::prelude::*;

verus! {

/// Rules on a case by deferring to what congress legislated.
pub fn judicial() {
    super::congress::legislate();
}

} // verus!
