//! Per-edge and per-corner measurements of a rectangle.

use crate::dimension::{Dimension, Lp, Px};
use crate::ranges::FlexibleDimension;
use vstd::prelude::*;

verus! {

/// A width and height pair.
#[derive(Clone, Copy, Debug, PartialEq, Eq, Structural)]
pub struct Size<T> {
    /// The horizontal extent.
    pub width: T,
    /// The vertical extent.
    pub height: T,
}

/// A type describing characteristics about the edges of a rectangle.
#[derive(Clone, Copy, Debug, PartialEq, Eq, Structural)]
pub struct Edges<T> {
    /// The left edge.
    pub left: T,
    /// The top edge.
    pub top: T,
    /// The right edge.
    pub right: T,
    /// The bottom edge.
    pub bottom: T,
}

impl<T> Edges<T> {
    /// Returns edges holding the same value on every side.
    pub fn uniform(value: T) -> (r: Edges<T>)
        where T: Copy,
        ensures
            r == (Edges { left: value, top: value, right: value, bottom: value }),
    {
        Edges { left: value, top: value, right: value, bottom: value }
    }

    /// Returns a new set of edges produced by calling `map` with each of
    /// the edges.
    pub fn map<U, F: Fn(T) -> U>(self, map: F) -> (r: Edges<U>)
        requires
            forall|t: T| #[trigger] map.requires((t,)),
        ensures
            map.ensures((self.left,), r.left),
            map.ensures((self.top,), r.top),
            map.ensures((self.right,), r.right),
            map.ensures((self.bottom,), r.bottom),
    {
        Edges {
            left: map(self.left),
            top: map(self.top),
            right: map(self.right),
            bottom: map(self.bottom),
        }
    }

    /// Updates `top` and returns self.
    pub fn with_top(self, top: T) -> (r: Edges<T>)
        ensures
            r == (Edges { top, ..self }),
    {
        Edges { top, ..self }
    }

    /// Updates `bottom` and returns self.
    pub fn with_bottom(self, bottom: T) -> (r: Edges<T>)
        ensures
            r == (Edges { bottom, ..self }),
    {
        Edges { bottom, ..self }
    }

    /// Updates `right` and returns self.
    pub fn with_right(self, right: T) -> (r: Edges<T>)
        ensures
            r == (Edges { right, ..self }),
    {
        Edges { right, ..self }
    }

    /// Updates `left` and returns self.
    pub fn with_left(self, left: T) -> (r: Edges<T>)
        ensures
            r == (Edges { left, ..self }),
    {
        Edges { left, ..self }
    }

    /// Updates the left and right edges to `horizontal` and returns self.
    pub fn with_horizontal(self, horizontal: T) -> (r: Edges<T>)
        where T: Copy,
        ensures
            r == (Edges { left: horizontal, right: horizontal, ..self }),
    {
        Edges { left: horizontal, right: horizontal, ..self }
    }

    /// Updates the top and bottom edges to `vertical` and returns self.
    pub fn with_vertical(self, vertical: T) -> (r: Edges<T>)
        where T: Copy,
        ensures
            r == (Edges { top: vertical, bottom: vertical, ..self }),
    {
        Edges { top: vertical, bottom: vertical, ..self }
    }
}

impl Edges<Px> {
    /// Returns the sum of the left and right edges.
    pub fn width(self) -> (r: Px)
        requires
            i32::MIN <= self.left.0 + self.right.0 <= i32::MAX,
        ensures
            r.0 == self.left.0 + self.right.0,
    {
        Px(self.left.0 + self.right.0)
    }

    /// Returns the sum of the top and bottom edges.
    pub fn height(self) -> (r: Px)
        requires
            i32::MIN <= self.top.0 + self.bottom.0 <= i32::MAX,
        ensures
            r.0 == self.top.0 + self.bottom.0,
    {
        Px(self.top.0 + self.bottom.0)
    }

    /// Returns the sum of the edges on each axis as a [`Size`].
    pub fn size(self) -> (r: Size<Px>)
        requires
            i32::MIN <= self.left.0 + self.right.0 <= i32::MAX,
            i32::MIN <= self.top.0 + self.bottom.0 <= i32::MAX,
        ensures
            r.width.0 == self.left.0 + self.right.0,
            r.height.0 == self.top.0 + self.bottom.0,
    {
        Size { width: self.width(), height: self.height() }
    }
}

impl Edges<Lp> {
    /// Returns the sum of the left and right edges.
    pub fn width(self) -> (r: Lp)
        requires
            i32::MIN <= self.left.0 + self.right.0 <= i32::MAX,
        ensures
            r.0 == self.left.0 + self.right.0,
    {
        Lp(self.left.0 + self.right.0)
    }

    /// Returns the sum of the top and bottom edges.
    pub fn height(self) -> (r: Lp)
        requires
            i32::MIN <= self.top.0 + self.bottom.0 <= i32::MAX,
        ensures
            r.0 == self.top.0 + self.bottom.0,
    {
        Lp(self.top.0 + self.bottom.0)
    }

    /// Returns the sum of the edges on each axis as a [`Size`].
    pub fn size(self) -> (r: Size<Lp>)
        requires
            i32::MIN <= self.left.0 + self.right.0 <= i32::MAX,
            i32::MIN <= self.top.0 + self.bottom.0 <= i32::MAX,
        ensures
            r.width.0 == self.left.0 + self.right.0,
            r.height.0 == self.top.0 + self.bottom.0,
    {
        Size { width: self.width(), height: self.height() }
    }
}

impl Default for Edges<FlexibleDimension> {
    /// By default every edge is the zero measurement.
    fn default() -> (r: Edges<FlexibleDimension>)
        ensures
            r.left == FlexibleDimension::Dimension(Dimension::Px(Px(0))),
            r.top == r.left && r.right == r.left && r.bottom == r.left,
    {
        Edges {
            left: FlexibleDimension::zero(),
            top: FlexibleDimension::zero(),
            right: FlexibleDimension::zero(),
            bottom: FlexibleDimension::zero(),
        }
    }
}

impl Default for Edges<Dimension> {
    /// By default every edge is the zero measurement.
    fn default() -> (r: Edges<Dimension>)
        ensures
            r.left == Dimension::Px(Px(0)),
            r.top == r.left && r.right == r.left && r.bottom == r.left,
    {
        Edges {
            left: Dimension::zero(),
            top: Dimension::zero(),
            right: Dimension::zero(),
            bottom: Dimension::zero(),
        }
    }
}

/// The rounding of a rectangle's four corners.
#[derive(Clone, Copy, Debug, PartialEq, Eq, Structural)]
pub struct CornerRadii {
    /// The rounding of the top left corner.
    pub top_left: Dimension,
    /// The rounding of the top right corner.
    pub top_right: Dimension,
    /// The rounding of the bottom right corner.
    pub bottom_right: Dimension,
    /// The rounding of the bottom left corner.
    pub bottom_left: Dimension,
}

impl CornerRadii {
    /// Returns radii rounding every corner by the same measurement.
    pub fn uniform(radius: Dimension) -> (r: CornerRadii)
        ensures
            r == (CornerRadii {
                top_left: radius,
                top_right: radius,
                bottom_right: radius,
                bottom_left: radius,
            }),
    {
        CornerRadii {
            top_left: radius,
            top_right: radius,
            bottom_right: radius,
            bottom_left: radius,
        }
    }
}

} // verus!
