//! The compressed unit vector as a value.
use vstd::prelude::*;

verus! {

/// A compressed unit vector: a direction held in two bytes.
#[derive(Clone, Copy, Debug, PartialEq, Eq, Structural)]
pub struct CompUnitVec {
    value: u16,
}

impl View for CompUnitVec {
    type V = u16;

    /// The code that the vector holds.
    closed spec fn view(&self) -> u16 {
        self.value
    }
}

impl CompUnitVec {
    /// A compressed unit vector that holds an already composed code.
    pub fn from_u16(value: u16) -> (r: Self)
        ensures
            r@ == value,
    {
        CompUnitVec { value }
    }

    /// The code that this compressed unit vector holds.
    pub fn get_u16(&self) -> (r: u16)
        ensures
            r == self@,
    {
        self.value
    }
}

} // verus!
