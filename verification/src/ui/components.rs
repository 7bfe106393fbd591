use vstd::prelude::*;

verus! {

/// The entities the debug UI lists, by entity id.
#[derive(Default)]
pub struct Hierarchy {
    pub entities: Vec<u64>,
}

impl Hierarchy {
    /// A hierarchy that lists `entities`, in that order.
    pub fn new(entities: Vec<u64>) -> (hierarchy: Self)
        ensures
            hierarchy.entities@ == entities@,
    {
        Hierarchy { entities }
    }
}

/// A component with no settings, for the debug UI to tune when a character
/// has nothing to tune.
pub struct EmptyTunable;

/// Names a character that the debug UI tracks.
pub struct TrackedEntity(pub String);

} // verus!
