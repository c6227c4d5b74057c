//! A miniature state whose branches are modules: the point of the tree is the
//! paths between its offices, not the work the offices do.

pub mod congress;
pub mod court;
pub mod government;

use vstd::prelude::*;

verus! {

/// Touches the tree from its root; the branches do the actual speaking.
#[allow(non_snake_case)]
pub fn useNation() {
}

} // verus!
