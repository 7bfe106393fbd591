use vstd::prelude::*;

verus! {

/// Whether the game runs or is paused.
#[derive(Debug, Clone, Copy, PartialEq, Eq, Structural)]
pub enum GameState {
    Running,
    Paused,
}

impl Default for GameState {
    /// A game starts running.
    fn default() -> (state: GameState)
        ensures
            state == GameState::Running,
    {
        GameState::Running
    }
}

/// The state that pausing or resuming leads to from `state`.
pub open spec fn spec_toggled(state: GameState) -> GameState {
    match state {
        GameState::Running => GameState::Paused,
        GameState::Paused => GameState::Running,
    }
}

/// The state to move to when the player toggles pause: a running game pauses,
/// a paused game resumes.
pub fn toggle_pause(current: GameState) -> (next: GameState)
    ensures
        next == spec_toggled(current),
        next != current,
{
    match current {
        GameState::Running => GameState::Paused,
        GameState::Paused => GameState::Running,
    }
}

/// Toggling pause twice comes back to the state it started from.
pub proof fn toggle_pause_twice_restores(state: GameState)
    ensures
        spec_toggled(spec_toggled(state)) == state,
{
}

} // verus!
