use vstd::prelude::*;
use crate::util::game_states::{spec_toggled, toggle_pause, GameState};

verus! {

/// Actions bound to keys that are not the player's.
#[derive(Debug, Clone, Copy, PartialEq, Eq, Structural)]
pub enum SystemAction {
    ToggleEgui,
    Exit,
    TogglePause,
}

/// State of the controls that are not the player's: whether the debug UI is
/// shown.
#[derive(Debug, Clone, Copy)]
pub struct OtherControls {
    egui_visible: bool,
}

impl Default for OtherControls {
    /// The debug UI starts shown.
    fn default() -> (controls: OtherControls)
        ensures
            controls.spec_egui_visible(),
    {
        OtherControls { egui_visible: true }
    }
}

impl OtherControls {
    /// Whether the debug UI is shown.
    pub closed spec fn spec_egui_visible(&self) -> bool {
        self.egui_visible
    }

    /// Whether the debug UI is shown.
    pub fn is_egui_visible(&self) -> (visible: bool)
        ensures
            visible == self.spec_egui_visible(),
    {
        self.egui_visible
    }

    /// Shows the debug UI.
    pub fn show_egui(&mut self)
        ensures
            final(self).spec_egui_visible(),
    {
        self.egui_visible = true;
    }

    /// Hides the debug UI.
    pub fn hide_egui(&mut self)
        ensures
            !final(self).spec_egui_visible(),
    {
        self.egui_visible = false;
    }

    /// Shows the debug UI if it is hidden and hides it if it is shown.
    pub fn toggle_egui(&mut self)
        ensures
            final(self).spec_egui_visible() == !old(self).spec_egui_visible(),
    {
        self.egui_visible = !self.egui_visible;
    }
}

/// What the engine is to do after the non-player keys of one frame.
#[derive(Debug, Clone, Copy, PartialEq, Eq, Structural)]
pub struct NonPlayerOutcome {
    /// Ask the application to exit.
    pub exit: bool,
    /// Move the game to this state, and pause the virtual clock when it is
    /// `Paused`, resume it when it is `Running`.
    pub next_state: Option<GameState>,
}

/// Handles the non-player keys pressed this frame: the UI key toggles the debug
/// UI, the exit key asks to exit, the pause key pauses a running game or
/// resumes a paused one.
pub fn handle_non_player_controls(
    controls: &mut OtherControls,
    current: GameState,
    toggle_egui_pressed: bool,
    exit_pressed: bool,
    toggle_pause_pressed: bool,
) -> (outcome: NonPlayerOutcome)
    ensures
        final(controls).spec_egui_visible() == (old(controls).spec_egui_visible()
            != toggle_egui_pressed),
        outcome.exit == exit_pressed,
        outcome.next_state == if toggle_pause_pressed {
            Some(spec_toggled(current))
        } else {
            None
        },
{
    if toggle_egui_pressed {
        controls.toggle_egui();
    }
    let next_state = if toggle_pause_pressed {
        Some(toggle_pause(current))
    } else {
        None
    };
    NonPlayerOutcome { exit: exit_pressed, next_state }
}

/// Toggling the debug UI twice leaves it as it was.
pub proof fn toggle_egui_twice_restores(
    start: OtherControls,
    once: OtherControls,
    twice: OtherControls,
)
    requires
        once.spec_egui_visible() == !start.spec_egui_visible(),
        twice.spec_egui_visible() == !once.spec_egui_visible(),
    ensures
        twice.spec_egui_visible() == start.spec_egui_visible(),
{
}

} // verus!
