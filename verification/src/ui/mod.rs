use vstd::prelude::*;

pub mod components;
pub mod plugin;

verus! {

} // verus!
