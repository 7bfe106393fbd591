use vstd::prelude::*;

pub mod player_input;

verus! {

/// Number of spatial dimensions a character controller works in.
#[derive(Debug, Clone, Copy, PartialEq, Eq, Structural)]
pub enum Dimensionality {
    Dim2,
    Dim3,
}

} // verus!
