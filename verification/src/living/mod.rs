use vstd::prelude::*;

pub mod components;
pub mod player;
pub mod spawner;
pub mod weapon_shooting;

verus! {

/// Physics collision layers of the game world.
#[derive(Debug, Clone, Copy, PartialEq, Eq, Structural)]
pub enum GameLayer {
    World,
    FriendlyUnit,
    FriendlyProjectile,
    EnemyUnit,
    EnemyProjectile,
    NeutralUnit,
    NeutralProjectile,
}

impl Default for GameLayer {
    /// Entities are on the world layer unless placed elsewhere.
    fn default() -> (layer: GameLayer)
        ensures
            layer == GameLayer::World,
    {
        GameLayer::World
    }
}

} // verus!
