use vstd::prelude::*;
use crate::living::weapon_shooting::components::{WeaponInventory, WeaponKind};

verus! {

/// Marker for the player character.
#[derive(Debug, Clone, Copy, Default)]
pub struct IsPlayer;

/// The weapons the player starts with: bow, sword, heavy bow and beam, with
/// the beam selected.
pub fn starting_inventory() -> (inventory: WeaponInventory)
    ensures
        inventory.slots@ == seq![
            WeaponKind::Bow,
            WeaponKind::Sword,
            WeaponKind::HeavyBow,
            WeaponKind::Beam,
        ],
        inventory.active == 3,
        inventory.selects_a_slot(),
{
    WeaponInventory {
        slots: vec![WeaponKind::Bow, WeaponKind::Sword, WeaponKind::HeavyBow, WeaponKind::Beam],
        active: 3,
    }
}

/// The weapon the player holds when spawned; the selected weapon replaces it
/// on the first frame.
pub fn starting_weapon() -> (kind: WeaponKind)
    ensures
        kind == WeaponKind::Bow,
{
    WeaponKind::Bow
}

} // verus!
