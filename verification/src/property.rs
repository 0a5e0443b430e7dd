//! The property cell: a dependency-tracked storage location.
//!
//! A cell holds the value it was last given, together with a dirty bit.
//! The cell is *clean* while the stored value is fresh, and *dirty* once an
//! input of the rule that computes it has changed.  Propagation is pull
//! based: a change never recomputes a dependent eagerly, it only marks the
//! dependent dirty, and the owner of the dependency graph recomputes a
//! dirty cell on its next read.  Because `get` demands a clean cell, a read
//! of a fresh value never triggers a second recomputation: that is the
//! memoization guarantee of the engine.

use vstd::prelude::*;

verus! {

/// A typed storage cell of the reactive engine.
pub struct Property<T> {
    value: T,
    dirty: bool,
}

impl<T> Property<T> {
    /// The value currently stored in the cell.
    pub closed spec fn spec_value(&self) -> T {
        self.value
    }

    /// Whether the cell is stale and must be recomputed before a read.
    pub closed spec fn spec_dirty(&self) -> bool {
        self.dirty
    }

    /// A fresh cell holding `value`.
    pub fn new(value: T) -> (r: Self)
        ensures
            r.spec_value() == value,
            !r.spec_dirty(),
    {
        Property { value, dirty: false }
    }

    /// Stores a value and makes the cell clean.  The stored value counts
    /// as fresh whether it is a literal write or the recorded result of a
    /// recomputation; marking the cell's dependents dirty is the task of
    /// the owner of the dependency graph.
    pub fn set(&mut self, value: T)
        ensures
            final(self).spec_value() == value,
            !final(self).spec_dirty(),
    {
        self.value = value;
        self.dirty = false;
    }

    /// Marks the cell stale: an input it depends on has changed, so the
    /// stored value may no longer be fresh.
    pub fn mark_dirty(&mut self)
        ensures
            final(self).spec_value() == old(self).spec_value(),
            final(self).spec_dirty(),
    {
        self.dirty = true;
    }

    /// Reads the cached value of a clean cell.  A dirty cell must be
    /// recomputed (and stored with `set`) first; demanding cleanliness
    /// here is what lets repeated reads share one recomputation.
    pub fn get(&self) -> (r: &T)
        requires
            !self.spec_dirty(),
        ensures
            *r == self.spec_value(),
    {
        &self.value
    }

    /// Whether the cell must be recomputed before its next read.
    pub fn is_dirty(&self) -> (r: bool)
        ensures
            r == self.spec_dirty(),
    {
        self.dirty
    }
}

} // verus!
