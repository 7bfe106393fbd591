use vstd::prelude::*;

verus! {

/// What a fire request asks of a weapon, from the state of the fire button.
#[derive(Debug, Clone, Copy, PartialEq, Eq, Structural)]
pub enum WeaponIntent {
    BeginHold,
    ContinueHold,
    ReleaseHold,
}

} // verus!
