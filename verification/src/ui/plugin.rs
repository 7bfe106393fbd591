use vstd::prelude::*;

verus! {

/// The group of systems that refresh the debug UI's information panels.
#[derive(Debug, Clone, Copy, PartialEq, Eq, Structural)]
pub struct DemoInfoUpdateSystems;

} // verus!
