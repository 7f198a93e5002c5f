//! Entity handles that key the cache.

use vstd::prelude::*;

verus! {

/// Opaque handle identifying one layout node.
///
/// Handles are allocated and recycled by the caller's node tree; the cache
/// only uses them as keys and never creates or destroys one. Two handles
/// denote the same node exactly when their indices are equal.
#[derive(Clone, Copy, PartialEq, Eq, Structural, Hash, Debug)]
pub struct Entity {
    /// The caller-chosen index of this node.
    pub index: u64,
}

impl Entity {
    /// Builds the handle with the given index.
    pub fn new(index: u64) -> (e: Entity)
        ensures
            e.index == index,
    {
        Entity { index }
    }
}

} // verus!
