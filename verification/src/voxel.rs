//! What a grid cell can hold.
//!
//! A cell type has one distinguished family of values that mean "nothing here".
//! Meshing and encoding decide by that test alone; they never wrap a cell in an
//! `Option`.

use vstd::prelude::*;

verus! {

/// The content of one voxel.
pub trait Voxel: Copy + Sized {
    /// Whether this value stands for "no content here".
    spec fn vacant(&self) -> bool;

    /// The value a fresh grid is filled with.
    spec fn empty_value() -> Self;

    /// The fill value of a fresh grid is itself vacant.
    proof fn empty_is_vacant()
        ensures
            Self::empty_value().vacant(),
    ;

    /// Returns the value a fresh grid is filled with.
    fn empty() -> (cell: Self)
        ensures
            cell == Self::empty_value(),
    ;

    /// Tests for the vacant sentinel.
    fn is_empty(&self) -> (vacant: bool)
        ensures
            vacant == self.vacant(),
    ;
}

} // verus!
