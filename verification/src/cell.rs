//! Type-erased cells: the storage unit the backend publishes for every
//! computed result, and the universe of values such a cell can hold.

use vstd::prelude::*;

verus! {

/// Identity of a published cell: the task that produced it and the index of
/// the cell within that task's storage.  Two typed references denote the
/// same value exactly when they carry the same cell identity, independent of
/// the kind of reference.
#[derive(Clone, Copy, PartialEq, Eq, Structural, Debug, Hash)]
pub struct CellId {
    pub task: u64,
    pub index: u64,
}

/// The universe of values a backend can store in type-erased form.
///
/// An application picks one universe type — a tagged union with one variant
/// per storable concrete value type — and gives every stored value a runtime
/// type identity tag.  Concrete types then register with the casting layer
/// through `VcValueType`, which ties each type to the tag its erased values
/// carry.
pub trait ValueUniverse: Sized {
    /// The runtime type identity tag of this stored value.
    spec fn type_tag(self) -> u64;

    /// Read the runtime type identity tag of this stored value.
    fn tag(&self) -> (t: u64)
        ensures
            t == self.type_tag(),
    ;
}

/// Cache-hit comparison: two typed references denote the same value exactly
/// when both record the identity of the cell they were cast from and the
/// identities agree — independent of the kind of either reference.
pub fn same_cell(a: Option<CellId>, b: Option<CellId>) -> (r: bool)
    ensures
        r == match (a, b) {
            (Some(x), Some(y)) => x == y,
            _ => false,
        },
{
    match (a, b) {
        (Some(x), Some(y)) => x.task == y.task && x.index == y.index,
        _ => false,
    }
}

/// A type-erased cell as published by the backend: an erased value together
/// with the identity of the cell that produced it.
///
/// Published content is immutable: the casting layer never mutates a cell,
/// and recomputation publishes a new `CellContent` wholesale rather than
/// editing one in place, so any number of readers may share it.
pub struct CellContent<U> {
    /// The erased value.
    pub payload: U,
    /// Which task and cell produced this content, when the backend tracks it.
    pub provenance: Option<CellId>,
}

} // verus!
