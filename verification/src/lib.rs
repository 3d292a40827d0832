//! The core of a list box widget: a labelled, scrollable list that a
//! retained-mode toolkit lays out, feeds with pointer events and draws.
//!
//! The crate holds what the widget decides: how it answers a press and a
//! release of the pointer, what it hands to its renderer, and which
//! primitives the graphics layer assembles for it.
//!
//! * [`state`], [`event`] and [`listbox`]: the widget, the state it is lent
//!   and its answer to an event;
//! * [`renderer`], [`style`], [`primitive`] and [`graphics`]: what draws the
//!   widget, and what comes of it;
//! * [`length`] and [`geometry`]: sizes and positions;
//! * [`laws`]: what holds of every list box.

pub mod event;
pub mod geometry;
pub mod graphics;
pub mod laws;
pub mod length;
pub mod listbox;
pub mod primitive;
pub mod renderer;
pub mod state;
pub mod style;

pub use event::{decide, transition, Button, Event, Outcome, Status};
pub use geometry::rectangle_contains;
pub use graphics::{Defaults, Graphics};
pub use length::Length;
pub use listbox::{answers, delivers, ListBox, ListBoxView};
pub use primitive::{Interaction, Primitive};
pub use renderer::Renderer;
pub use state::State;
pub use style::{yields, Background, Color, Plain, Style, StyleSheet};
