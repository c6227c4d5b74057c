use vstd::prelude::*;

verus! {

/// Speaks for the government; saying so has no further effect.
pub fn say() {
}

/// Runs the executive branch: it speaks, once plainly and once through `self`.
pub fn govern() {
    say();
    self::say()
}

} // verus!
