//! How a widget fills space.

use vstd::prelude::*;

verus! {

/// The strategy used to fill space in one dimension.
#[derive(Debug, Clone, Copy, PartialEq, Eq, Hash, Structural)]
pub enum Length {
    /// Fill all the remaining space.
    Fill,
    /// Fill a portion of the remaining space, relative to other elements.
    FillPortion(u16),
    /// Fill the least amount of space.
    Shrink,
    /// Fill a fixed amount of space.
    Units(u16),
}

} // verus!
