use vstd::prelude::*;
use crate::living::weapon_shooting::events::WeaponIntent;

verus! {

/// What a fire request does to a beam weapon.
#[derive(Debug, Clone, Copy, PartialEq, Eq, Structural)]
pub enum BeamAction {
    /// Keep the beam on, ending where the ray cast from the wielder stops, and
    /// spawn a spark there.
    Activate,
    /// Switch the beam off.
    Deactivate,
}

/// The beam action for a fire request: beginning or continuing a hold keeps
/// the beam on, releasing it switches the beam off.
pub fn handle_fire_beam_message(intent: WeaponIntent) -> (action: BeamAction)
    ensures
        action == BeamAction::Deactivate <==> intent == WeaponIntent::ReleaseHold,
{
    match intent {
        WeaponIntent::BeginHold | WeaponIntent::ContinueHold => BeamAction::Activate,
        WeaponIntent::ReleaseHold => BeamAction::Deactivate,
    }
}

} // verus!
