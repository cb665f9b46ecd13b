//! Behavior of measurements, ranges, edges, and ordering options.

use uistyles::dimension::{Dimension, Fraction, Lp, Px, UPx};
use uistyles::edges::{CornerRadii, Edges};
use uistyles::order::{
    ContainerLevel, FocusableWidgets, HorizontalOrder, VerticalOrder, VisualOrder,
};
use uistyles::ranges::{DimensionBound, DimensionRange, FlexibleDimension};

#[test]
fn clamp_uses_resolved_endpoints() {
    let range = DimensionRange::from_range(Dimension::Px(Px(10)), Dimension::Px(Px(20)));
    let scale = Fraction::one();
    assert_eq!(range.clamp(UPx(5), scale), UPx(10));
    // The excluded upper bound collapses to nineteen.
    assert_eq!(range.clamp(UPx(25), scale), UPx(19));
    assert_eq!(range.clamp(UPx(15), scale), UPx(15));
}

#[test]
fn single_value_range_reports_exact_dimension() {
    let range = DimensionRange::from(Px(7));
    assert_eq!(range.exact_dimension(), Some(Dimension::Px(Px(7))));
    assert_eq!(range.start, DimensionBound::Excluded(Dimension::Px(Px(7))));
    assert_eq!(range.end, DimensionBound::Included(Dimension::Px(Px(7))));
}

#[test]
fn other_ranges_report_no_exact_dimension() {
    let closed =
        DimensionRange::from_range_inclusive(Dimension::Px(Px(7)), Dimension::Px(Px(7)));
    assert_eq!(closed.exact_dimension(), None);
    assert_eq!(DimensionRange::full().exact_dimension(), None);
}

#[test]
fn excluded_bounds_step_one_unit() {
    let range = DimensionRange {
        start: DimensionBound::Excluded(Dimension::Lp(Lp(4))),
        end: DimensionBound::Excluded(Dimension::Px(Px(9))),
    };
    assert_eq!(range.minimum(), Some(Dimension::Lp(Lp(5))));
    assert_eq!(range.maximum(), Some(Dimension::Px(Px(8))));
    assert_eq!(DimensionRange::full().minimum(), None);
    assert_eq!(DimensionRange::full().maximum(), None);
}

#[test]
fn unit_conversions_apply_the_scale_ratio() {
    let double = Fraction::new(2, 1);
    assert_eq!(Lp(10).into_px(double), Px(20));
    assert_eq!(Px(10).into_lp(double), Lp(5));
    assert_eq!(Dimension::Px(Px(10)).into_px(double), Px(10));
    assert_eq!(Dimension::Lp(Lp(10)).into_lp(double), Lp(10));
    // Flooring rounds toward negative infinity.
    let third = Fraction::new(1, 3);
    assert_eq!(Lp(-10).into_px(third), Px(-4));
}

#[test]
fn unsigned_conversion_saturates_negative_values() {
    assert_eq!(Px(-5).into_unsigned(), UPx(0));
    assert_eq!(Px(5).into_unsigned(), UPx(5));
    assert_eq!(Dimension::Px(Px(-5)).into_upx(Fraction::one()), UPx(0));
    assert_eq!(UPx(3_000_000_000).into_signed(), Px(i32::MAX));
}

#[test]
fn arithmetic_preserves_the_unit() {
    assert_eq!(Dimension::Px(Px(6)).mul_i32(3), Dimension::Px(Px(18)));
    assert_eq!(Dimension::Lp(Lp(6)).mul_i32(-2), Dimension::Lp(Lp(-12)));
    assert_eq!(Dimension::Px(Px(7)).div_i32(2), Dimension::Px(Px(3)));
    assert_eq!(Dimension::Lp(Lp(-7)).div_i32(2), Dimension::Lp(Lp(-3)));
    // Negative divisors round toward zero as well.
    assert_eq!(Dimension::Px(Px(7)).div_i32(-2), Dimension::Px(Px(-3)));
    assert_eq!(Dimension::Px(Px(-7)).div_i32(-2), Dimension::Px(Px(3)));
    assert_eq!(Dimension::Lp(Lp(i32::MIN)).div_i32(2), Dimension::Lp(Lp(i32::MIN / 2)));
}

#[test]
fn zero_is_zero_in_any_unit() {
    assert!(Dimension::zero().is_zero());
    assert!(Dimension::Lp(Lp(0)).is_zero());
    assert!(!Dimension::Px(Px(1)).is_zero());
    assert_eq!(Dimension::default(), Dimension::Px(Px(0)));
    assert_eq!(
        FlexibleDimension::default(),
        FlexibleDimension::Dimension(Dimension::Px(Px(0)))
    );
}

#[test]
fn edges_builders_update_one_side_at_a_time() {
    let edges = Edges::uniform(Px(1))
        .with_top(Px(2))
        .with_bottom(Px(3))
        .with_left(Px(4));
    assert_eq!(edges.top, Px(2));
    assert_eq!(edges.bottom, Px(3));
    assert_eq!(edges.left, Px(4));
    assert_eq!(edges.right, Px(1));
    assert_eq!(edges.width(), Px(5));
    assert_eq!(edges.height(), Px(5));
    let size = edges.size();
    assert_eq!(size.width, Px(5));
    assert_eq!(size.height, Px(5));
    let horizontal = Edges::uniform(Lp(0)).with_horizontal(Lp(7)).with_vertical(Lp(2));
    assert_eq!(horizontal.left, Lp(7));
    assert_eq!(horizontal.right, Lp(7));
    assert_eq!(horizontal.width(), Lp(14));
    assert_eq!(horizontal.height(), Lp(4));
}

#[test]
fn corner_radii_share_one_measurement() {
    let radii = CornerRadii::uniform(Dimension::Lp(Lp(3)));
    assert_eq!(radii.top_left, Dimension::Lp(Lp(3)));
    assert_eq!(radii.bottom_right, Dimension::Lp(Lp(3)));
}

#[test]
fn visual_order_reverses_both_axes() {
    let order = VisualOrder::left_to_right();
    assert_eq!(order.horizontal, HorizontalOrder::LeftToRight);
    assert_eq!(order.vertical, VerticalOrder::TopToBottom);
    let reversed = order.rev();
    assert_eq!(reversed.horizontal, HorizontalOrder::RightToLeft);
    assert_eq!(reversed.vertical, VerticalOrder::BottomToTop);
    assert_eq!(VisualOrder::right_to_left().horizontal, HorizontalOrder::RightToLeft);
}

#[test]
fn vertical_order_picks_extremes_and_smallest() {
    assert_eq!(VerticalOrder::TopToBottom.max_px(), Px(i32::MAX));
    assert_eq!(VerticalOrder::BottomToTop.max_px(), Px(i32::MIN));
    assert_eq!(VerticalOrder::TopToBottom.smallest_px(Px(3), Px(9)), Px(3));
    assert_eq!(VerticalOrder::BottomToTop.smallest_px(Px(3), Px(9)), Px(9));
}

#[test]
fn focusable_widgets_classify() {
    assert!(FocusableWidgets::All.is_all());
    assert!(!FocusableWidgets::All.is_only_textual());
    assert!(FocusableWidgets::OnlyTextual.is_only_textual());
    assert_eq!(FocusableWidgets::default(), FocusableWidgets::All);
}

#[test]
fn container_levels_step_upward() {
    assert_eq!(ContainerLevel::Lowest.next(), Some(ContainerLevel::Low));
    assert_eq!(ContainerLevel::Low.next(), Some(ContainerLevel::Mid));
    assert_eq!(ContainerLevel::Mid.next(), Some(ContainerLevel::High));
    assert_eq!(ContainerLevel::High.next(), Some(ContainerLevel::Highest));
    assert_eq!(ContainerLevel::Highest.next(), None);
    assert_eq!(ContainerLevel::default(), ContainerLevel::Lowest);
    assert!(ContainerLevel::Lowest < ContainerLevel::Highest);
}

#[test]
fn map_applies_to_each_edge() {
    let edges = Edges {
        left: Px(1),
        top: Px(2),
        right: Px(3),
        bottom: Px(4),
    };
    let doubled = edges.map(|px: Px| Px(px.0 * 2));
    assert_eq!(doubled.left, Px(2));
    assert_eq!(doubled.top, Px(4));
    assert_eq!(doubled.right, Px(6));
    assert_eq!(doubled.bottom, Px(8));
}
