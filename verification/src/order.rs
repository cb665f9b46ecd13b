//! Layout ordering and focus options stored as style values.

use crate::dimension::Px;
use vstd::prelude::*;

verus! {

/// A horizontal direction.
#[derive(Clone, Copy, Debug, PartialEq, Eq, Structural)]
pub enum HorizontalOrder {
    /// Describes an order starting at the left and proceeding to the right.
    LeftToRight,
    /// Describes an order starting at the right and proceeding to the left.
    RightToLeft,
}

impl HorizontalOrder {
    /// The opposite horizontal direction.
    pub open spec fn rev_spec(self) -> HorizontalOrder {
        match self {
            HorizontalOrder::LeftToRight => HorizontalOrder::RightToLeft,
            HorizontalOrder::RightToLeft => HorizontalOrder::LeftToRight,
        }
    }

    /// Returns the reverse order of `self`.
    pub fn rev(self) -> (r: HorizontalOrder)
        ensures
            r == self.rev_spec(),
    {
        match self {
            HorizontalOrder::LeftToRight => HorizontalOrder::RightToLeft,
            HorizontalOrder::RightToLeft => HorizontalOrder::LeftToRight,
        }
    }
}

/// A vertical direction.
#[derive(Clone, Copy, Debug, PartialEq, Eq, Structural)]
pub enum VerticalOrder {
    /// Describes an order starting at the top and proceeding to the bottom.
    TopToBottom,
    /// Describes an order starting at the bottom and proceeding to the top.
    BottomToTop,
}

impl VerticalOrder {
    /// The opposite vertical direction.
    pub open spec fn rev_spec(self) -> VerticalOrder {
        match self {
            VerticalOrder::TopToBottom => VerticalOrder::BottomToTop,
            VerticalOrder::BottomToTop => VerticalOrder::TopToBottom,
        }
    }

    /// Returns the reverse order of `self`.
    pub fn rev(self) -> (r: VerticalOrder)
        ensures
            r == self.rev_spec(),
    {
        match self {
            VerticalOrder::TopToBottom => VerticalOrder::BottomToTop,
            VerticalOrder::BottomToTop => VerticalOrder::TopToBottom,
        }
    }

    /// Returns the pixel coordinate that sorts after every other one in
    /// this direction.
    pub fn max_px(self) -> (r: Px)
        ensures
            r == (match self {
                VerticalOrder::TopToBottom => Px(i32::MAX),
                VerticalOrder::BottomToTop => Px(i32::MIN),
            }),
    {
        match self {
            VerticalOrder::TopToBottom => Px(i32::MAX),
            VerticalOrder::BottomToTop => Px(i32::MIN),
        }
    }

    /// Returns whichever of `a` and `b` comes first in this direction.
    pub fn smallest_px(self, a: Px, b: Px) -> (r: Px)
        ensures
            r == (match self {
                VerticalOrder::TopToBottom => if a.0 <= b.0 {
                    a
                } else {
                    b
                },
                VerticalOrder::BottomToTop => if b.0 >= a.0 {
                    b
                } else {
                    a
                },
            }),
    {
        match self {
            VerticalOrder::TopToBottom => if a.0 <= b.0 {
                a
            } else {
                b
            },
            VerticalOrder::BottomToTop => if b.0 >= a.0 {
                b
            } else {
                a
            },
        }
    }
}

/// A 2d ordering configuration.
#[derive(Clone, Copy, Debug, PartialEq, Eq, Structural)]
pub struct VisualOrder {
    /// The ordering to apply horizontally.
    pub horizontal: HorizontalOrder,
    /// The ordering to apply vertically.
    pub vertical: VerticalOrder,
}

impl VisualOrder {
    /// Returns a right-to-left ordering.
    pub fn right_to_left() -> (r: VisualOrder)
        ensures
            r == (VisualOrder {
                horizontal: HorizontalOrder::RightToLeft,
                vertical: VerticalOrder::TopToBottom,
            }),
    {
        VisualOrder { horizontal: HorizontalOrder::RightToLeft, vertical: VerticalOrder::TopToBottom }
    }

    /// Returns a left-to-right ordering.
    pub fn left_to_right() -> (r: VisualOrder)
        ensures
            r == (VisualOrder {
                horizontal: HorizontalOrder::LeftToRight,
                vertical: VerticalOrder::TopToBottom,
            }),
    {
        VisualOrder { horizontal: HorizontalOrder::LeftToRight, vertical: VerticalOrder::TopToBottom }
    }

    /// Returns the reverse ordering of `self`.
    pub fn rev(self) -> (r: VisualOrder)
        ensures
            r.horizontal == self.horizontal.rev_spec(),
            r.vertical == self.vertical.rev_spec(),
    {
        VisualOrder { horizontal: self.horizontal.rev(), vertical: self.vertical.rev() }
    }
}

/// A configuration option to control which controls should be able to
/// receive focus through keyboard focus handling or initial focus handling.
#[derive(Clone, Copy, Debug, PartialEq, Eq, Structural)]
pub enum FocusableWidgets {
    /// Allow all widgets that can respond to keyboard input to accept
    /// focus.
    All,
    /// Only allow widgets that expect textual input to accept focus.
    OnlyTextual,
}

impl FocusableWidgets {
    /// Returns true if all controls should be focusable.
    pub fn is_all(self) -> (r: bool)
        ensures
            r == (self == FocusableWidgets::All),
    {
        match self {
            FocusableWidgets::All => true,
            FocusableWidgets::OnlyTextual => false,
        }
    }

    /// Returns true if only textual controls should be focusable.
    pub fn is_only_textual(self) -> (r: bool)
        ensures
            r == (self == FocusableWidgets::OnlyTextual),
    {
        match self {
            FocusableWidgets::All => false,
            FocusableWidgets::OnlyTextual => true,
        }
    }
}

impl Default for FocusableWidgets {
    /// By default every keyboard-capable widget is focusable.
    fn default() -> (r: FocusableWidgets)
        ensures
            r == FocusableWidgets::All,
    {
        FocusableWidgets::All
    }
}

/// A description of the level of depth a container widget is nested at.
#[derive(Clone, Copy, Debug, PartialEq, Eq, PartialOrd, Ord, Structural)]
pub enum ContainerLevel {
    /// The lowest container level.
    Lowest,
    /// The second lowest container level.
    Low,
    /// The mid-level container level.
    Mid,
    /// The second-highest container level.
    High,
    /// The highest container level.
    Highest,
}

impl ContainerLevel {
    /// Returns the next container level, or None if already at the highest
    /// level.
    pub fn next(self) -> (r: Option<ContainerLevel>)
        ensures
            r == (match self {
                ContainerLevel::Lowest => Some(ContainerLevel::Low),
                ContainerLevel::Low => Some(ContainerLevel::Mid),
                ContainerLevel::Mid => Some(ContainerLevel::High),
                ContainerLevel::High => Some(ContainerLevel::Highest),
                ContainerLevel::Highest => None::<ContainerLevel>,
            }),
    {
        match self {
            ContainerLevel::Lowest => Some(ContainerLevel::Low),
            ContainerLevel::Low => Some(ContainerLevel::Mid),
            ContainerLevel::Mid => Some(ContainerLevel::High),
            ContainerLevel::High => Some(ContainerLevel::Highest),
            ContainerLevel::Highest => None,
        }
    }
}

impl Default for ContainerLevel {
    /// The default level is the lowest.
    fn default() -> (r: ContainerLevel)
        ensures
            r == ContainerLevel::Lowest,
    {
        ContainerLevel::Lowest
    }
}

} // verus!
