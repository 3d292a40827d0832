//! The interaction state that outlives a frame.

use vstd::prelude::*;

verus! {

/// The local state of a list box.
///
/// The embedding application owns it and lends it to the widget for the
/// length of one frame. A list box is idle until the left button goes down
/// on it, and idle again once the button is let go.
#[derive(Debug, Clone, Copy, PartialEq, Eq, Structural)]
pub struct State {
    /// The left button went down on the widget and has not come up yet.
    pub is_pressed: bool,
    /// The widget is shown as active.
    pub active: bool,
}

impl State {
    /// The state of a list box that nothing has touched.
    pub open spec fn idle() -> State {
        State { is_pressed: false, active: false }
    }

    /// Creates a new [`State`]: neither pressed nor active.
    pub fn new() -> (state: State)
        ensures
            state == State::idle(),
    {
        State { is_pressed: false, active: false }
    }
}

impl Default for State {
    fn default() -> (state: State)
        ensures
            state == State::idle(),
    {
        State::new()
    }
}

} // verus!
