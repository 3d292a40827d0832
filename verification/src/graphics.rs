//! The graphics layer: a list box as primitives.

use crate::primitive::{Interaction, Primitive};
use crate::renderer::Renderer;
use crate::style::{yields, Color, Style, StyleSheet};
use iced_native::{Point, Rectangle};
use std::marker::PhantomData;
use vstd::prelude::*;

verus! {

/// The settings that the graphics layer hands to every draw call.
#[derive(Debug, Clone, Copy, PartialEq, Eq, Structural)]
pub struct Defaults {
    /// The colour of text for which none is given.
    pub text_color: Color,
}

/// The renderer of the graphics layer. It styles its list boxes by style
/// sheets of type `S`, and holds nothing itself.
pub struct Graphics<S>(pub PhantomData<S>);

/// The quad behind a list box: it covers `bounds`, has the background and
/// the corners of `style`, and a border of no width that does not show.
pub open spec fn background_quad(bounds: Rectangle, style: Style) -> Primitive {
    Primitive::Quad {
        bounds,
        background: style.background,
        border_radius: style.border_radius,
        border_width: 0,
        border_color: Color::transparent(),
    }
}

/// Whether `primitive` is a list box of the given bounds and style: a group
/// that holds the background quad and nothing else.
pub open spec fn is_list_box(primitive: Primitive, bounds: Rectangle, style: Style) -> bool {
    &&& primitive matches Primitive::Group { primitives }
    &&& primitives@ =~= seq![background_quad(bounds, style)]
}

/// Assembles the primitives of a list box of the given bounds and style.
pub fn assemble(bounds: Rectangle, style: &Style) -> (primitive: Primitive)
    ensures
        is_list_box(primitive, bounds, *style),
{
    let quad = Primitive::Quad {
        bounds,
        background: style.background,
        border_radius: style.border_radius,
        border_width: 0,
        border_color: Color { r: 0, g: 0, b: 0, a: 0 },
    };
    Primitive::Group { primitives: vec![quad] }
}

/// The graphics layer pads a list box by 5 and makes it 30 high, unless
/// told otherwise.
pub proof fn lemma_graphics_defaults<S: StyleSheet + Default>()
    ensures
        <Graphics<S> as Renderer>::DEFAULT_PADDING == 5,
        <Graphics<S> as Renderer>::DEFAULT_HEIGHT == 30,
{
}

impl<S> Graphics<S> {
    /// Creates the renderer.
    pub fn new() -> (renderer: Self)
        ensures
            renderer == Graphics::<S>(PhantomData),
    {
        Graphics(PhantomData)
    }
}

impl<S: StyleSheet + Default> Renderer for Graphics<S> {
    type Output = (Primitive, Interaction);

    type Defaults = Defaults;

    type Style = S;

    const DEFAULT_PADDING: u16 = 5;

    const DEFAULT_HEIGHT: u16 = 30;

    /// Draws a list box: the group that holds the background quad, in a
    /// style that the sheet yields. The cursor is left as it is, and so is
    /// the renderer.
    fn draw(
        &mut self,
        defaults: &Defaults,
        bounds: Rectangle,
        cursor_position: Point,
        is_disabled: bool,
        is_pressed: bool,
        style: &S,
        content: &Vec<String>,
        content_bounds: Rectangle,
    ) -> (output: (Primitive, Interaction))
        ensures
            exists|look: Style| #[trigger] yields(style, look) && is_list_box(output.0, bounds, look),
            output.1 == Interaction::Idle,
            *final(self) == *old(self),
    {
        let look = style.style();
        assert(yields(style, look));
        (assemble(bounds, &look), Interaction::default())
    }
}

} // verus!
