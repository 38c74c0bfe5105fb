//! What the clock remembers between paints: which face it shows, whether
//! the seconds are shown, and whether the title bar is hidden.

use vstd::prelude::*;

verus! {

/// The two faces of the clock.
#[derive(Clone, Copy, Debug, PartialEq, Eq, Structural)]
pub enum DisplayMode {
    Analog,
    Digital,
}

/// The clock's settings, as the menus and the mouse change them.
#[derive(Clone, Copy, Debug, PartialEq, Eq, Structural)]
pub struct ClockState {
    pub show_seconds: bool,
    pub mode: DisplayMode,
    pub title_bar_hidden: bool,
}

impl ClockState {
    /// The settings the clock starts with: analog face, seconds shown,
    /// title bar shown.
    pub fn initial() -> (s: ClockState)
        ensures
            s == (ClockState { show_seconds: true, mode: DisplayMode::Analog, title_bar_hidden: false }),
    {
        ClockState { show_seconds: true, mode: DisplayMode::Analog, title_bar_hidden: false }
    }
}

/// Which face a paint draws.
pub fn face_to_draw(state: ClockState) -> (mode: DisplayMode)
    ensures
        mode == state.mode,
{
    if state.mode == DisplayMode::Analog {
        DisplayMode::Analog
    } else {
        DisplayMode::Digital
    }
}

} // verus!
