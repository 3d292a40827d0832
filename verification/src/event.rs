//! The events a list box tells apart, and how it answers them.

use vstd::prelude::*;

verus! {

/// A button of the mouse.
#[derive(Debug, Clone, Copy, PartialEq, Eq, Hash, Structural)]
pub enum Button {
    /// The left mouse button.
    Left,
    /// The right mouse button.
    Right,
    /// The middle (wheel) button.
    Middle,
    /// Some other button.
    Other(u8),
}

/// An event of the user interface, as far as a list box tells events apart.
#[derive(Debug, Clone, Copy, PartialEq, Eq, Structural)]
pub enum Event {
    /// A mouse button was pressed.
    ButtonPressed(Button),
    /// A mouse button was released.
    ButtonReleased(Button),
    /// Anything else: the keyboard, the window, the cursor, the wheel.
    Other,
}

/// What became of an [`Event`] once a widget has seen it.
#[derive(Debug, Clone, Copy, PartialEq, Eq, Structural)]
pub enum Status {
    /// The widget did not handle the event; it passes through.
    Ignored,
    /// The widget handled the event.
    Captured,
}

/// What one event does to a list box.
#[derive(Debug, Clone, Copy, PartialEq, Eq, Structural)]
pub struct Outcome {
    /// Whether the widget counts as pressed afterwards.
    pub pressed: bool,
    /// What the widget reports of the event.
    pub status: Status,
    /// Whether the widget publishes its message.
    pub emits: bool,
}

/// The answer of a list box to one event.
///
/// `pressed` is the pressed flag before the event, `armed` says whether a
/// message is configured, and `inside` whether the cursor is within the
/// widget's bounds.
///
/// * The left button going down inside an armed widget presses it, and the
///   event is captured.
/// * The left button coming up on a pressed, armed widget releases it. If the
///   cursor is inside, the message is published and the event captured.
/// * Every other event passes through and changes nothing.
pub open spec fn transition(pressed: bool, armed: bool, event: Event, inside: bool) -> Outcome {
    if event == Event::ButtonPressed(Button::Left) && armed && inside {
        Outcome { pressed: true, status: Status::Captured, emits: false }
    } else if event == Event::ButtonReleased(Button::Left) && armed && pressed {
        Outcome {
            pressed: false,
            status: if inside { Status::Captured } else { Status::Ignored },
            emits: inside,
        }
    } else {
        Outcome { pressed, status: Status::Ignored, emits: false }
    }
}

/// Decides the answer of a list box to one event: [`transition`], computed.
pub fn decide(pressed: bool, armed: bool, event: Event, inside: bool) -> (outcome: Outcome)
    ensures
        outcome == transition(pressed, armed, event, inside),
{
    match event {
        Event::ButtonPressed(Button::Left) => {
            if armed && inside {
                return Outcome { pressed: true, status: Status::Captured, emits: false };
            }
        },
        Event::ButtonReleased(Button::Left) => {
            if armed && pressed {
                let status = if inside {
                    Status::Captured
                } else {
                    Status::Ignored
                };
                return Outcome { pressed: false, status, emits: inside };
            }
        },
        _ => {},
    }
    Outcome { pressed, status: Status::Ignored, emits: false }
}

} // verus!
