use vstd::prelude::*;

verus! {

/// The side a character or projectile fights on.
#[derive(Debug, Clone, Copy, PartialEq, Eq, Structural)]
pub enum Team {
    Neutral,
    Player,
    Enemy,
}

impl Default for Team {
    /// Characters are neutral unless given a side.
    fn default() -> (team: Team)
        ensures
            team == Team::Neutral,
    {
        Team::Neutral
    }
}

/// Marker for the sprite child of a character.
#[derive(Debug, Clone, Copy, Default)]
pub struct CharacterSprite;

} // verus!
