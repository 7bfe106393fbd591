use vstd::prelude::*;

pub mod cannon;
pub mod center_of_gravity;

verus! {

/// Marker for level geometry that characters can climb.
pub struct Climbable;

} // verus!
