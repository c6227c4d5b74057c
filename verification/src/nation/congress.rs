use vstd::prelude::*;

verus! {

/// Passes a law; the statute book stays empty.
pub fn legislate() {
}

} // verus!
