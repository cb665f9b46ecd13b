//! Behavior of the color model, the scheme builder, and theme derivation.

use uistyles::animation::ZeroToOne;
use uistyles::color::{Color, ColorExt, ColorSource, Hue, Lightness};
use uistyles::scheme::{ColorScheme, ColorSchemeBuilder};
use uistyles::theme::ThemePair;

fn source(degrees: i64, saturation: i64) -> ColorSource {
    ColorSource::new(Hue::from_degrees(degrees), ZeroToOne::new(saturation))
}

#[test]
fn hue_normalizes_into_half_open_turn() {
    assert_eq!(Hue::from_degrees(190).md, -170_000);
    assert_eq!(Hue::from_degrees(-190).md, 170_000);
    assert_eq!(Hue::from_degrees(180).md, 180_000);
    assert_eq!(Hue::from_degrees(-180).md, 180_000);
    assert_eq!(Hue::from_degrees(360).md, 0);
    assert_eq!(Hue::new(138_500).md, 138_500);
}

#[test]
fn fraction_clamps_into_unit_interval() {
    assert_eq!(ZeroToOne::new(-3).0, 0);
    assert_eq!(ZeroToOne::new(20_000).0, 10_000);
    assert_eq!(ZeroToOne::new(555).0, 555);
}

#[test]
fn contrast_handles_hue_wraparound() {
    // Hues five degrees on either side of zero are ten degrees apart, not
    // three hundred fifty.
    let a = source(5, 8000);
    let b = source(355, 8000);
    // 10 degrees of arc out of 180 averaged with a zero saturation
    // difference, in fixed point, rounded down.
    assert_eq!(a.contrast_between(b).0, 277);
}

#[test]
fn contrast_is_symmetric_and_bounded() {
    let hues = [-179, -120, -45, 0, 30, 90, 155, 180];
    let sats = [0, 2500, 8000, 10_000];
    for &ha in &hues {
        for &sa in &sats {
            for &hb in &hues {
                for &sb in &sats {
                    let a = source(ha, sa);
                    let b = source(hb, sb);
                    let ab = a.contrast_between(b).0;
                    let ba = b.contrast_between(a).0;
                    assert_eq!(ab, ba);
                    assert!((0..=10_000).contains(&ab));
                }
            }
        }
    }
}

#[test]
fn opposite_hues_with_opposite_saturations_score_full_contrast() {
    // Perfect contrast: half a turn apart on the hue circle, one source
    // gray and the other fully saturated.
    let gray = source(0, 0);
    let vivid = source(180, 10_000);
    assert_eq!(gray.contrast_between(vivid).0, 10_000);
    // Opposite hues at equal saturation contribute only the hue term.
    assert_eq!(source(0, 8000).contrast_between(source(180, 8000)).0, 5000);
    // Equal sources have nothing contrasting about them.
    assert_eq!(source(90, 4000).contrast_between(source(90, 4000)).0, 0);
}

#[test]
fn color_decomposition_weights_lightness_by_alpha() {
    let c = Color::new(source(90, 4000), ZeroToOne::new(6000), ZeroToOne::new(5000));
    let (s, l) = c.into_source_and_lightness();
    assert_eq!(s, source(90, 4000));
    assert_eq!(l.0, 3000);
    assert_eq!(c.source(), source(90, 4000));
    assert_eq!(c.lightness().0, 3000);
}

#[test]
fn most_contrasting_keeps_first_of_equal_candidates() {
    let base = source(0, 10_000).color(50u8);
    let left = source(90, 10_000).color(50u8);
    let right = source(-90, 10_000).color(50u8);
    let dull = source(5, 10_000).color(50u8);
    // The two perpendicular hues tie; the earlier one must win.
    let picked = base.most_contrasting(&[dull, left, right]);
    assert_eq!(picked, left);
}

#[test]
fn scheme_builder_populates_every_field() {
    let scheme = ColorSchemeBuilder::new(source(138, 8000)).build();
    // Generated values, not placeholders.
    assert_eq!(scheme.primary, source(138, 8000));
    assert_eq!(scheme.secondary.hue.md, 168_000);
    assert_eq!(scheme.secondary.saturation.0, 4000);
    assert_eq!(scheme.tertiary.hue.md, 108_000);
    assert_eq!(scheme.tertiary.saturation.0, 2666);
    assert_eq!(scheme.neutral.hue.md, 138_000);
    assert_eq!(scheme.neutral.saturation.0, 100);
    assert_eq!(scheme.neutral_variant.saturation.0, 800);
    // The generated error color clears the contrast floor against each
    // accent color.
    assert!(scheme.primary.contrast_between(scheme.error).0 >= 1000);
    assert!(scheme.secondary.contrast_between(scheme.error).0 >= 1000);
    assert!(scheme.tertiary.contrast_between(scheme.error).0 >= 1000);
}

#[test]
fn default_scheme_error_search_accepts_seed() {
    let scheme = ColorScheme::default();
    assert_eq!(scheme.error.hue.md, 30_000);
    assert_eq!(scheme.error.saturation.0, 8000);
}

#[test]
fn scheme_builder_respects_given_colors() {
    let secondary = source(-20, 1234);
    let scheme = ColorSchemeBuilder::new(source(138, 8000))
        .secondary(secondary)
        .build();
    assert_eq!(scheme.secondary, secondary);
    // Tertiary lands on the other side of the primary from the secondary.
    assert_eq!(scheme.tertiary.hue.md, 168_000);
}

#[test]
fn tertiary_setter_sets_tertiary() {
    let tertiary = source(77, 4321);
    let scheme = ColorSchemeBuilder::new(source(138, 8000))
        .tertiary(tertiary)
        .build();
    assert_eq!(scheme.tertiary, tertiary);
}

#[test]
fn hue_only_prototypes_take_fallback_saturations() {
    let scheme = ColorScheme::from_primary(Hue::from_degrees(138));
    assert_eq!(scheme.primary.saturation.0, 8000);
    let built = ColorSchemeBuilder::new(Hue::from_degrees(138))
        .neutral(Hue::from_degrees(10))
        .build();
    assert_eq!(built.neutral.hue.md, 10_000);
    assert_eq!(built.neutral.saturation.0, 100);
}

#[test]
fn theme_derivation_is_deterministic() {
    let scheme = ColorScheme::from_primary(source(222, 9000));
    let once = ThemePair::from_scheme(&scheme);
    let again = ThemePair::from_scheme(&scheme);
    assert_eq!(once, again);
}

#[test]
fn theme_samples_fixed_lightness_tables() {
    let scheme = ColorScheme::from_primary(source(138, 8000));
    let pair = ThemePair::from_scheme(&scheme);
    // Light-mode accent color samples the primary source at forty percent
    // lightness; dark mode at eighty.
    assert_eq!(pair.light.primary.color.source, scheme.primary);
    assert_eq!(pair.light.primary.color.lightness.0, 4000);
    assert_eq!(pair.dark.primary.color.lightness.0, 8000);
    assert_eq!(pair.light.primary.on_color.lightness.0, 10_000);
    assert_eq!(pair.primary_fixed.dim_color.lightness.0, 8000);
    assert_eq!(pair.scrim.source, scheme.neutral);
    assert_eq!(pair.scrim.lightness.0, 100);
    assert_eq!(pair.shadow, pair.scrim);
    assert_eq!(pair.light.surface.color.lightness.0, 9700);
    assert_eq!(pair.dark.surface.dim_color.lightness.0, 200);
}

#[test]
fn lightness_from_percent_clamps() {
    assert_eq!(40u8.into_lightness().0, 4000);
    assert_eq!(103u8.into_lightness().0, 10_000);
}

#[test]
fn generated_color_is_fully_opaque() {
    let c = source(30, 8000).color(ZeroToOne::new(2500));
    assert_eq!(c.alpha.0, 10_000);
    assert_eq!(c.lightness.0, 2500);
    assert_eq!(c.source, source(30, 8000));
}

#[test]
fn preset_error_color_is_kept() {
    let error = source(-100, 9000);
    let mut builder = ColorSchemeBuilder::new(source(138, 8000));
    builder.error = Some(error);
    let scheme = builder.build();
    assert_eq!(scheme.error, error);
}

#[test]
fn fraction_arithmetic_is_exact() {
    let a = ZeroToOne::new(8000);
    let b = ZeroToOne::new(2500);
    assert_eq!(a.one_minus().0, 2000);
    assert_eq!(a.difference_between(b).0, 5500);
    assert_eq!(b.difference_between(a).0, 5500);
    assert_eq!(a.times(b).0, 2000);
    assert_eq!(a.div_int(3).0, 2666);
    assert_eq!(ZeroToOne::zero().0, 0);
    assert_eq!(ZeroToOne::one().0, 10_000);
}

#[test]
fn hue_arithmetic_wraps() {
    let a = Hue::from_degrees(170);
    let b = Hue::from_degrees(20);
    assert_eq!(a.plus(b).md, -170_000);
    assert_eq!(b.minus(a).md, -150_000);
    assert_eq!(a.positive_md(), 170_000);
    assert_eq!(Hue::from_degrees(-20).positive_md(), 340_000);
}

#[test]
fn error_walk_steps_past_low_contrast_hues() {
    // A primary at the seed hue leaves the first candidates with too
    // little contrast; the walk keeps stepping back until one clears the
    // floor against all three accent colors.
    let scheme = ColorScheme::from_primary(source(30, 8000));
    assert_eq!(scheme.error.hue.md, -30_000);
    assert_eq!(scheme.error.saturation.0, 8000);
    assert!(scheme.primary.contrast_between(scheme.error).0 >= 1000);
    assert!(scheme.secondary.contrast_between(scheme.error).0 >= 1000);
    assert!(scheme.tertiary.contrast_between(scheme.error).0 >= 1000);
}

#[test]
fn every_primary_yields_a_scheme() {
    // The twelve candidate hues tile the circle, so generation succeeds
    // whatever the primary is.
    for degrees in (-180..=180).step_by(7) {
        let scheme = ColorScheme::from_primary(source(degrees, 9500));
        assert!(scheme.primary.contrast_between(scheme.error).0 >= 1000);
        assert!(scheme.secondary.contrast_between(scheme.error).0 >= 1000);
        assert!(scheme.tertiary.contrast_between(scheme.error).0 >= 1000);
    }
}
