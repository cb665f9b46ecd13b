//! Bounded ranges over [`Dimension`] measurements.
//!
//! A [`DimensionRange`] pairs a lower and an upper [`DimensionBound`]. An
//! `Excluded` bound collapses to the adjacent included measurement by
//! stepping one unit in the bound's own unit, and a range can clamp an
//! unsigned pixel size between its resolved endpoints.

use crate::dimension::{Dimension, Fraction, Lp, Px, UPx};
use vstd::prelude::*;

verus! {

/// One edge of a [`DimensionRange`].
#[derive(Clone, Copy, Debug, PartialEq, Eq, Structural)]
pub enum DimensionBound {
    /// The range does not constrain this edge.
    Unbounded,
    /// The edge includes the measurement.
    Included(Dimension),
    /// The edge excludes the measurement.
    Excluded(Dimension),
}

/// A 1-dimensional measurement that may be automatically calculated.
#[derive(Clone, Copy, Debug, PartialEq, Eq, Structural)]
pub enum FlexibleDimension {
    /// Automatically calculate this dimension.
    Auto,
    /// Use this dimension.
    Dimension(Dimension),
}

impl FlexibleDimension {
    /// The zero measurement.
    pub fn zero() -> (r: FlexibleDimension)
        ensures
            r == FlexibleDimension::Dimension(Dimension::Px(Px(0))),
    {
        FlexibleDimension::Dimension(Dimension::zero())
    }
}

impl Default for FlexibleDimension {
    /// The default flexible dimension is the zero measurement.
    fn default() -> (r: FlexibleDimension)
        ensures
            r == FlexibleDimension::Dimension(Dimension::Px(Px(0))),
    {
        FlexibleDimension::zero()
    }
}

impl From<Dimension> for FlexibleDimension {
    fn from(dimension: Dimension) -> (r: FlexibleDimension) {
        FlexibleDimension::Dimension(dimension)
    }
}

impl vstd::std_specs::convert::FromSpecImpl<Dimension> for FlexibleDimension {
    open spec fn obeys_from_spec() -> bool {
        true
    }

    open spec fn from_spec(dimension: Dimension) -> FlexibleDimension {
        FlexibleDimension::Dimension(dimension)
    }
}

impl From<Px> for FlexibleDimension {
    fn from(value: Px) -> (r: FlexibleDimension) {
        FlexibleDimension::Dimension(Dimension::Px(value))
    }
}

impl vstd::std_specs::convert::FromSpecImpl<Px> for FlexibleDimension {
    open spec fn obeys_from_spec() -> bool {
        true
    }

    open spec fn from_spec(value: Px) -> FlexibleDimension {
        FlexibleDimension::Dimension(Dimension::Px(value))
    }
}

impl From<Lp> for FlexibleDimension {
    fn from(value: Lp) -> (r: FlexibleDimension) {
        FlexibleDimension::Dimension(Dimension::Lp(value))
    }
}

impl vstd::std_specs::convert::FromSpecImpl<Lp> for FlexibleDimension {
    open spec fn obeys_from_spec() -> bool {
        true
    }

    open spec fn from_spec(value: Lp) -> FlexibleDimension {
        FlexibleDimension::Dimension(Dimension::Lp(value))
    }
}

/// A range of [`Dimension`]s.
#[derive(Clone, Copy, Debug, PartialEq, Eq, Structural)]
pub struct DimensionRange {
    /// The start bound of the range.
    pub start: DimensionBound,
    /// The end bound of the range.
    pub end: DimensionBound,
}

/// The measurement one unit above `d`, in `d`'s own unit.
pub open spec fn step_up(d: Dimension) -> Dimension {
    match d {
        Dimension::Px(px) => Dimension::Px(Px((px.0 + 1) as i32)),
        Dimension::Lp(lp) => Dimension::Lp(Lp((lp.0 + 1) as i32)),
    }
}

/// The measurement one unit below `d`, in `d`'s own unit.
pub open spec fn step_down(d: Dimension) -> Dimension {
    match d {
        Dimension::Px(px) => Dimension::Px(Px((px.0 - 1) as i32)),
        Dimension::Lp(lp) => Dimension::Lp(Lp((lp.0 - 1) as i32)),
    }
}

impl DimensionRange {
    /// Stepping an excluded start bound up by one unit must not overflow the
    /// unit's numeric range.
    pub open spec fn start_steppable(self) -> bool {
        self.start matches DimensionBound::Excluded(d) ==> d.raw() < i32::MAX
    }

    /// Stepping an excluded end bound down by one unit must not underflow
    /// the unit's numeric range.
    pub open spec fn end_steppable(self) -> bool {
        self.end matches DimensionBound::Excluded(d) ==> d.raw() > i32::MIN
    }

    /// The resolved lower endpoint: an excluded start steps up one unit, an
    /// included start is used as is.
    pub open spec fn minimum_spec(self) -> Option<Dimension> {
        match self.start {
            DimensionBound::Unbounded => None,
            DimensionBound::Included(d) => Some(d),
            DimensionBound::Excluded(d) => Some(step_up(d)),
        }
    }

    /// The resolved upper endpoint: an excluded end steps down one unit, an
    /// included end is used as is.
    pub open spec fn maximum_spec(self) -> Option<Dimension> {
        match self.end {
            DimensionBound::Unbounded => None,
            DimensionBound::Included(d) => Some(d),
            DimensionBound::Excluded(d) => Some(step_down(d)),
        }
    }

    /// Returns this range's dimension if the range represents a single
    /// dimension, which is encoded canonically as an excluded start and an
    /// included end over the same measurement.
    pub fn exact_dimension(&self) -> (r: Option<Dimension>)
        ensures
            r == (match (self.start, self.end) {
                (DimensionBound::Excluded(s), DimensionBound::Included(e)) => if s == e {
                    Some(s)
                } else {
                    None::<Dimension>
                },
                _ => None::<Dimension>,
            }),
    {
        match (self.start, self.end) {
            (DimensionBound::Excluded(start), DimensionBound::Included(end)) => {
                let same = match (start, end) {
                    (Dimension::Px(a), Dimension::Px(b)) => a.0 == b.0,
                    (Dimension::Lp(a), Dimension::Lp(b)) => a.0 == b.0,
                    _ => false,
                };
                if same {
                    Some(start)
                } else {
                    None
                }
            },
            _ => None,
        }
    }

    /// Returns the minimum measurement, if the start is bounded.
    pub fn minimum(&self) -> (r: Option<Dimension>)
        requires
            self.start_steppable(),
        ensures
            r == self.minimum_spec(),
    {
        match self.start {
            DimensionBound::Unbounded => None,
            DimensionBound::Excluded(Dimension::Lp(lp)) => Some(Dimension::Lp(Lp(lp.0 + 1))),
            DimensionBound::Excluded(Dimension::Px(px)) => Some(Dimension::Px(Px(px.0 + 1))),
            DimensionBound::Included(value) => Some(value),
        }
    }

    /// Returns the maximum measurement, if the end is bounded.
    pub fn maximum(&self) -> (r: Option<Dimension>)
        requires
            self.end_steppable(),
        ensures
            r == self.maximum_spec(),
    {
        match self.end {
            DimensionBound::Unbounded => None,
            DimensionBound::Excluded(Dimension::Lp(lp)) => Some(Dimension::Lp(Lp(lp.0 - 1))),
            DimensionBound::Excluded(Dimension::Px(px)) => Some(Dimension::Px(Px(px.0 - 1))),
            DimensionBound::Included(value) => Some(value),
        }
    }

    /// The mathematical result of clamping `size` between the resolved
    /// endpoints converted to unsigned pixels: an unbounded side leaves
    /// `size` unchanged on that side.
    pub open spec fn clamp_spec(self, size: int, scale: Fraction) -> int {
        let raised = match self.minimum_spec() {
            Some(min) => if size >= min.upx_value(scale) {
                size
            } else {
                min.upx_value(scale)
            },
            None => size,
        };
        match self.maximum_spec() {
            Some(max) => if raised <= max.upx_value(scale) {
                raised
            } else {
                max.upx_value(scale)
            },
            None => raised,
        }
    }

    /// Clamps `size` to the dimensions of this range, converting to unsigned
    /// pixels in the process.
    pub fn clamp(&self, size: UPx, scale: Fraction) -> (r: UPx)
        requires
            scale.wf(),
            self.start_steppable(),
            self.end_steppable(),
        ensures
            r.0 == self.clamp_spec(size.0 as int, scale),
    {
        let mut result = size;
        if let Some(min) = self.minimum() {
            result = result.max(min.into_upx(scale));
        }
        if let Some(max) = self.maximum() {
            result = result.min(max.into_upx(scale));
        }
        result
    }

    /// Returns the range covering every measurement.
    pub fn full() -> (r: DimensionRange)
        ensures
            r.start == DimensionBound::Unbounded,
            r.end == DimensionBound::Unbounded,
    {
        DimensionRange { start: DimensionBound::Unbounded, end: DimensionBound::Unbounded }
    }

    /// Returns the half-open range from `start` (included) to `end`
    /// (excluded).
    pub fn from_range(start: Dimension, end: Dimension) -> (r: DimensionRange)
        ensures
            r.start == DimensionBound::Included(start),
            r.end == DimensionBound::Excluded(end),
    {
        DimensionRange { start: DimensionBound::Included(start), end: DimensionBound::Excluded(end) }
    }

    /// Returns the closed range from `start` to `end`, both included.
    pub fn from_range_inclusive(start: Dimension, end: Dimension) -> (r: DimensionRange)
        ensures
            r.start == DimensionBound::Included(start),
            r.end == DimensionBound::Included(end),
    {
        DimensionRange { start: DimensionBound::Included(start), end: DimensionBound::Included(end) }
    }

    /// Returns the range of everything at or above `start`.
    pub fn from_range_from(start: Dimension) -> (r: DimensionRange)
        ensures
            r.start == DimensionBound::Included(start),
            r.end == DimensionBound::Unbounded,
    {
        DimensionRange { start: DimensionBound::Included(start), end: DimensionBound::Unbounded }
    }

    /// Returns the range of everything below `end`.
    pub fn from_range_to(end: Dimension) -> (r: DimensionRange)
        ensures
            r.start == DimensionBound::Unbounded,
            r.end == DimensionBound::Excluded(end),
    {
        DimensionRange { start: DimensionBound::Unbounded, end: DimensionBound::Excluded(end) }
    }

    /// Returns the range of everything at or below `end`.
    pub fn from_range_to_inclusive(end: Dimension) -> (r: DimensionRange)
        ensures
            r.start == DimensionBound::Unbounded,
            r.end == DimensionBound::Included(end),
    {
        DimensionRange { start: DimensionBound::Unbounded, end: DimensionBound::Included(end) }
    }
}

impl From<Dimension> for DimensionRange {
    /// A single measurement uses the canonical single-value encoding: an
    /// excluded start and an included end over the same measurement.
    fn from(value: Dimension) -> (r: DimensionRange) {
        DimensionRange {
            start: DimensionBound::Excluded(value),
            end: DimensionBound::Included(value),
        }
    }
}

impl vstd::std_specs::convert::FromSpecImpl<Dimension> for DimensionRange {
    open spec fn obeys_from_spec() -> bool {
        true
    }

    open spec fn from_spec(value: Dimension) -> DimensionRange {
        DimensionRange {
            start: DimensionBound::Excluded(value),
            end: DimensionBound::Included(value),
        }
    }
}

impl From<Px> for DimensionRange {
    fn from(value: Px) -> (r: DimensionRange) {
        DimensionRange::from(Dimension::Px(value))
    }
}

impl vstd::std_specs::convert::FromSpecImpl<Px> for DimensionRange {
    open spec fn obeys_from_spec() -> bool {
        true
    }

    open spec fn from_spec(value: Px) -> DimensionRange {
        DimensionRange {
            start: DimensionBound::Excluded(Dimension::Px(value)),
            end: DimensionBound::Included(Dimension::Px(value)),
        }
    }
}

impl From<Lp> for DimensionRange {
    fn from(value: Lp) -> (r: DimensionRange) {
        DimensionRange::from(Dimension::Lp(value))
    }
}

impl vstd::std_specs::convert::FromSpecImpl<Lp> for DimensionRange {
    open spec fn obeys_from_spec() -> bool {
        true
    }

    open spec fn from_spec(value: Lp) -> DimensionRange {
        DimensionRange {
            start: DimensionBound::Excluded(Dimension::Lp(value)),
            end: DimensionBound::Included(Dimension::Lp(value)),
        }
    }
}

} // verus!
