//! What the graphics layer hands to a backend.

use crate::style::{Background, Color};
use iced_native::Rectangle;
use vstd::prelude::*;

verus! {

/// A rendering primitive.
#[derive(Debug, PartialEq)]
pub enum Primitive {
    /// A group of primitives.
    Group {
        /// The primitives of the group.
        primitives: Vec<Primitive>,
    },
    /// A quad primitive.
    Quad {
        /// The bounds of the quad.
        bounds: Rectangle,
        /// The background of the quad.
        background: Background,
        /// The border radius of the quad.
        border_radius: u16,
        /// The border width of the quad.
        border_width: u16,
        /// The border colour of the quad.
        border_color: Color,
    },
}

/// The interaction of a mouse cursor: the shape it takes over a widget.
#[derive(Debug, Clone, Copy, PartialEq, Eq, Structural)]
pub enum Interaction {
    /// The cursor as it is when nothing is under it.
    Idle,
    /// The cursor over something to click.
    Pointer,
    /// The cursor over something to grab.
    Grab,
    /// The cursor over text.
    Text,
    /// The cursor as a crosshair.
    Crosshair,
    /// The cursor while the application is busy.
    Working,
    /// The cursor while it holds something.
    Grabbing,
    /// The cursor over an edge that moves sideways.
    ResizingHorizontally,
    /// The cursor over an edge that moves up and down.
    ResizingVertically,
}

impl Default for Interaction {
    fn default() -> (interaction: Interaction)
        ensures
            interaction == Interaction::Idle,
    {
        Interaction::Idle
    }
}

} // verus!
