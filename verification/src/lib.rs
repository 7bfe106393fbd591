//! Gameplay rules of a small 2D platformer: weapon inventories and firing,
//! projectile collision layers, melee targeting, pause handling and the
//! bookkeeping around them. The engine (rendering, physics, input, time) drives
//! these rules and applies what they decide.
use vstd::prelude::*;

pub mod character_control_systems;
pub mod level_mechanics;
pub mod living;
pub mod ui;
pub mod util;

verus! {

/// Whether gameplay systems may run. Without an editor in the build the game is
/// always in play.
pub fn is_playing() -> (playing: bool)
    ensures
        playing,
{
    true
}

} // verus!
