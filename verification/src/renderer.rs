//! What a list box asks of the renderer that draws it.

use iced_native::{Point, Rectangle};
use vstd::prelude::*;

verus! {

/// The renderer of a [`ListBox`](crate::ListBox).
///
/// A renderer implements this trait before a list box can be used with it.
pub trait Renderer: Sized {
    /// What drawing a widget yields.
    type Output;

    /// The settings that every draw call of one frame receives.
    type Defaults;

    /// The style supported by this renderer.
    type Style: Default;

    /// The default padding of a list box.
    const DEFAULT_PADDING: u16;

    /// The default height of a list box.
    const DEFAULT_HEIGHT: u16;

    /// Draws a list box.
    ///
    /// It receives:
    ///   * the bounds of the list box
    ///   * the position of the cursor
    ///   * whether the list box is disabled, and whether it is shown pressed
    ///   * the style of the list box
    ///   * the lines of the list box
    ///   * the bounds laid out for those lines
    fn draw(
        &mut self,
        defaults: &Self::Defaults,
        bounds: Rectangle,
        cursor_position: Point,
        is_disabled: bool,
        is_pressed: bool,
        style: &Self::Style,
        content: &Vec<String>,
        content_bounds: Rectangle,
    ) -> Self::Output;
}

} // verus!
