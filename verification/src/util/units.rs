use vstd::prelude::*;

verus! {

// These tags name coordinate spaces at the type level; their private field
// keeps anyone from building a value of them.

/// Coordinates in screen pixels.
pub struct ScreenSpace(());

/// Coordinates in the game world, y pointing up.
pub struct CartesianSpace(());

/// Coordinates in window pixels, y pointing down.
pub struct WindowSpace(());

/// Window coordinates scaled to the unit square.
pub struct NormalizedWindowSpace(());

} // verus!
