//! The global pause gate and the mouse capture mode that follows it.
//!
//! The engine's recomputation tick only runs while the game is in the
//! running state; while paused, no sweep or recompute occurs and all
//! computed values stay frozen at the last active tick.

use vstd::prelude::*;

verus! {

/// Whether the simulation is currently advancing.
#[derive(Clone, Copy, Debug, PartialEq, Eq, Hash, Structural)]
pub enum PauseState {
    Running,
    Paused,
}

/// Whether the mouse cursor is captured by the game window or free.
#[derive(Clone, Copy, Debug, PartialEq, Eq, Hash, Structural)]
pub enum MouseState {
    Captured,
    Free,
}

/// The pause state the toggle input switches to.
pub open spec fn toggled(state: PauseState) -> PauseState {
    match state {
        PauseState::Running => PauseState::Paused,
        PauseState::Paused => PauseState::Running,
    }
}

/// The mouse mode each pause state enters: running play captures the
/// cursor, the pause menu frees it.
pub open spec fn mouse_state_for_spec(state: PauseState) -> MouseState {
    match state {
        PauseState::Running => MouseState::Captured,
        PauseState::Paused => MouseState::Free,
    }
}

/// The decision taken when the pause toggle input fires.
pub fn toggle_paused(current: PauseState) -> (next: PauseState)
    ensures
        next == toggled(current),
{
    match current {
        PauseState::Running => PauseState::Paused,
        PauseState::Paused => PauseState::Running,
    }
}

/// The mouse mode to enter for the given pause state.
pub fn mouse_state_for(state: PauseState) -> (mouse: MouseState)
    ensures
        mouse == mouse_state_for_spec(state),
{
    match state {
        PauseState::Running => MouseState::Captured,
        PauseState::Paused => MouseState::Free,
    }
}

impl Default for PauseState {
    /// A fresh game starts running.
    fn default() -> (state: Self)
        ensures
            state == PauseState::Running,
    {
        PauseState::Running
    }
}

impl Default for MouseState {
    /// A fresh game captures the cursor.
    fn default() -> (state: Self)
        ensures
            state == MouseState::Captured,
    {
        MouseState::Captured
    }
}

} // verus!
