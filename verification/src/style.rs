//! The look of a list box.

use vstd::prelude::*;

verus! {

/// A colour: red, green, blue and opacity, each from 0 to 255.
#[derive(Debug, Clone, Copy, PartialEq, Eq, Structural)]
pub struct Color {
    pub r: u8,
    pub g: u8,
    pub b: u8,
    pub a: u8,
}

impl Color {
    /// The colour that lets everything behind it show.
    pub open spec fn transparent() -> Color {
        Color { r: 0, g: 0, b: 0, a: 0 }
    }

    /// An opaque colour of the given red, green and blue.
    pub open spec fn opaque(r: u8, g: u8, b: u8) -> Color {
        Color { r, g, b, a: 255 }
    }
}

/// The background of some element.
#[derive(Debug, Clone, Copy, PartialEq, Eq, Structural)]
pub enum Background {
    /// A solid colour.
    Color(Color),
}

/// The appearance of a list box.
#[derive(Debug, Clone, Copy, PartialEq, Eq, Structural)]
pub struct Style {
    /// What fills the box.
    pub background: Background,
    /// How far the corners of the box are rounded.
    pub border_radius: u16,
    /// The colour of the border of the box.
    pub border_color: Color,
}

/// A set of rules that dictate the style of a list box.
pub trait StyleSheet {
    /// Looks the style up.
    fn style(&self) -> Style;
}

/// Whether `sheet`, asked for its style, may answer `style`.
pub open spec fn yields<S: StyleSheet>(sheet: &S, style: Style) -> bool {
    call_ensures(S::style, (sheet,), style)
}

/// The style sheet of a list box for which none was chosen: a grey box with
/// corners rounded by 5 and a border that does not show.
#[derive(Debug, Clone, Copy, PartialEq, Eq, Structural)]
pub struct Plain;

impl Plain {
    /// The style that the plain sheet lays down.
    pub open spec fn appearance() -> Style {
        Style {
            background: Background::Color(Color::opaque(153, 153, 153)),
            border_radius: 5,
            border_color: Color::transparent(),
        }
    }
}

impl StyleSheet for Plain {
    fn style(&self) -> (style: Style)
        ensures
            style == Plain::appearance(),
    {
        Style {
            background: Background::Color(Color { r: 153, g: 153, b: 153, a: 255 }),
            border_radius: 5,
            border_color: Color { r: 0, g: 0, b: 0, a: 0 },
        }
    }
}

impl Default for Plain {
    fn default() -> (sheet: Plain)
        ensures
            sheet == Plain,
    {
        Plain
    }
}

} // verus!
