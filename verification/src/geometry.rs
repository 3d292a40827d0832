//! Bounds and positions, as the toolkit measures them.

use iced_native::{Point, Rectangle};
use vstd::prelude::*;

verus! {

/// `iced_native::Rectangle`: a corner, a width and a height. Nothing is
/// known here of what one holds; a rectangle is handed on as it came.
#[verifier::external_type_specification]
#[verifier::external_body]
#[verifier::reject_recursive_types(T)]
pub struct ExRectangle<T>(Rectangle<T>);

/// `iced_native::Point`: a position. Nothing is known here of what one
/// holds.
#[verifier::external_type_specification]
#[verifier::external_body]
pub struct ExPoint(Point);

/// Whether `point` lies within `bounds`, borders included, as
/// `iced_native::Rectangle::contains` answers it.
///
/// The coordinates are floating-point numbers, with which nothing is
/// computed here: the answer has a name in place of a formula. It depends on
/// the two values alone.
pub uninterp spec fn rectangle_contains(bounds: Rectangle, point: Point) -> bool;

/// Asks `iced_native::Rectangle::contains` whether `point` lies within
/// `bounds`. That the answer is [`rectangle_contains`] of the two is taken on
/// trust, not proved.
#[verifier::external_body]
pub(crate) fn contains(bounds: &Rectangle, point: Point) -> (inside: bool)
    ensures
        inside == rectangle_contains(*bounds, point),
{
    bounds.contains(point)
}

} // verus!
