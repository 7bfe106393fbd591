use vstd::prelude::*;

pub mod controls_other;
pub mod game_states;
pub mod units;

verus! {

/// The state of a key over the frames around a press.
#[derive(Debug, Clone, Copy, PartialEq, Eq, Structural)]
pub enum DetailedKeyState {
    /// Pressed this frame.
    JustPressed,
    /// Pressed, but not this frame.
    Held,
    /// Released this frame.
    JustReleased,
    /// Not pressed.
    Idle,
}

} // verus!
