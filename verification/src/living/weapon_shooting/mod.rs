use vstd::prelude::*;

pub mod beam;
pub mod components;
pub mod equip;
pub mod events;
pub mod melee;
pub mod projectiles;

verus! {

} // verus!
