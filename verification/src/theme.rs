//! Derived theme palettes.
//!
//! Themes are table-driven: each palette samples its color sources at
//! fixed lightness levels, with separate tables for light and dark modes
//! and one shared table for the fixed accent palettes. Every derivation is
//! a pure function of the sources, so recomputing a theme from equal
//! sources yields identical colors.

use crate::animation::{ZeroToOne, UNIT};
use crate::color::{Color, ColorSource};
use crate::scheme::ColorScheme;
use vstd::prelude::*;

verus! {

/// The color a source yields at a whole-percent lightness, fully opaque.
pub open spec fn shade(source: ColorSource, lightness_percent: u8) -> Color {
    Color {
        source,
        lightness: ZeroToOne((lightness_percent * 100) as i64),
        alpha: ZeroToOne(UNIT as i64),
    }
}

/// A palette derived from one color source.
#[derive(Clone, Copy, Debug, PartialEq, Eq, Structural)]
pub struct ColorTheme {
    /// The color for high-emphasis content.
    pub color: Color,
    /// The color, dimmed for de-emphasized or disabled content.
    pub color_dim: Color,
    /// The color, brightened for highlighting content.
    pub color_bright: Color,
    /// The color for content that sits atop the color.
    pub on_color: Color,
    /// The background color for containers.
    pub container: Color,
    /// The color for content that is inside of a container.
    pub on_container: Color,
}

/// The light-mode palette of a color source.
pub open spec fn color_theme_light(source: ColorSource) -> ColorTheme {
    ColorTheme {
        color: shade(source, 40),
        color_dim: shade(source, 20),
        color_bright: shade(source, 45),
        on_color: shade(source, 100),
        container: shade(source, 90),
        on_container: shade(source, 10),
    }
}

/// The dark-mode palette of a color source.
pub open spec fn color_theme_dark(source: ColorSource) -> ColorTheme {
    ColorTheme {
        color: shade(source, 80),
        color_dim: shade(source, 60),
        color_bright: shade(source, 85),
        on_color: shade(source, 10),
        container: shade(source, 30),
        on_container: shade(source, 90),
    }
}

impl ColorTheme {
    /// Returns a new light color theme for `source`.
    pub fn light_from_source(source: ColorSource) -> (r: ColorTheme)
        requires
            source.wf(),
        ensures
            r == color_theme_light(source),
    {
        ColorTheme {
            color: source.color(40u8),
            color_dim: source.color(20u8),
            color_bright: source.color(45u8),
            on_color: source.color(100u8),
            container: source.color(90u8),
            on_container: source.color(10u8),
        }
    }

    /// Returns a new dark color theme for `source`.
    pub fn dark_from_source(source: ColorSource) -> (r: ColorTheme)
        requires
            source.wf(),
        ensures
            r == color_theme_dark(source),
    {
        ColorTheme {
            color: source.color(80u8),
            color_dim: source.color(60u8),
            color_bright: source.color(85u8),
            on_color: source.color(10u8),
            container: source.color(30u8),
            on_container: source.color(90u8),
        }
    }
}

/// A theme of surface colors.
#[derive(Clone, Copy, Debug, PartialEq, Eq, Structural)]
pub struct SurfaceTheme {
    /// The default background color.
    pub color: Color,
    /// A dimmer variant of the default background color.
    pub dim_color: Color,
    /// A brighter variant of the default background color.
    pub bright_color: Color,
    /// The background color to use for the lowest level container widget.
    pub lowest_container: Color,
    /// The background color to use for the low level container widgets.
    pub low_container: Color,
    /// The background color for middle-level container widgets.
    pub container: Color,
    /// The background color for high-level container widgets.
    pub high_container: Color,
    /// The background color for highest-level container widgets.
    pub highest_container: Color,
    /// The default background color for widgets that are opaque.
    pub opaque_widget: Color,
    /// The default text/content color.
    pub on_color: Color,
    /// A variation of the text/content color that is de-emphasized.
    pub on_color_variant: Color,
    /// The color to draw important outlines.
    pub outline: Color,
    /// The color to use for decorative outlines.
    pub outline_variant: Color,
}

/// The light-mode surface palette of the two neutral sources.
pub open spec fn surface_theme_light(neutral: ColorSource, neutral_variant: ColorSource)
    -> SurfaceTheme {
    SurfaceTheme {
        color: shade(neutral, 97),
        dim_color: shade(neutral, 70),
        bright_color: shade(neutral, 99),
        opaque_widget: shade(neutral_variant, 75),
        lowest_container: shade(neutral, 95),
        low_container: shade(neutral, 92),
        container: shade(neutral, 90),
        high_container: shade(neutral, 85),
        highest_container: shade(neutral, 80),
        on_color: shade(neutral, 10),
        on_color_variant: shade(neutral_variant, 30),
        outline: shade(neutral_variant, 50),
        outline_variant: shade(neutral, 60),
    }
}

/// The dark-mode surface palette of the two neutral sources.
pub open spec fn surface_theme_dark(neutral: ColorSource, neutral_variant: ColorSource)
    -> SurfaceTheme {
    SurfaceTheme {
        color: shade(neutral, 10),
        dim_color: shade(neutral, 2),
        bright_color: shade(neutral, 11),
        opaque_widget: shade(neutral_variant, 40),
        lowest_container: shade(neutral, 15),
        low_container: shade(neutral, 20),
        container: shade(neutral, 25),
        high_container: shade(neutral, 30),
        highest_container: shade(neutral, 35),
        on_color: shade(neutral, 90),
        on_color_variant: shade(neutral_variant, 70),
        outline: shade(neutral_variant, 60),
        outline_variant: shade(neutral, 50),
    }
}

impl SurfaceTheme {
    /// Returns a new light surface theme generated from the two neutral
    /// color sources.
    pub fn light_from_sources(neutral: ColorSource, neutral_variant: ColorSource) -> (r:
        SurfaceTheme)
        requires
            neutral.wf(),
            neutral_variant.wf(),
        ensures
            r == surface_theme_light(neutral, neutral_variant),
    {
        SurfaceTheme {
            color: neutral.color(97u8),
            dim_color: neutral.color(70u8),
            bright_color: neutral.color(99u8),
            opaque_widget: neutral_variant.color(75u8),
            lowest_container: neutral.color(95u8),
            low_container: neutral.color(92u8),
            container: neutral.color(90u8),
            high_container: neutral.color(85u8),
            highest_container: neutral.color(80u8),
            on_color: neutral.color(10u8),
            on_color_variant: neutral_variant.color(30u8),
            outline: neutral_variant.color(50u8),
            outline_variant: neutral.color(60u8),
        }
    }

    /// Returns a new dark surface theme generated from the two neutral
    /// color sources.
    pub fn dark_from_sources(neutral: ColorSource, neutral_variant: ColorSource) -> (r:
        SurfaceTheme)
        requires
            neutral.wf(),
            neutral_variant.wf(),
        ensures
            r == surface_theme_dark(neutral, neutral_variant),
    {
        SurfaceTheme {
            color: neutral.color(10u8),
            dim_color: neutral.color(2u8),
            bright_color: neutral.color(11u8),
            opaque_widget: neutral_variant.color(40u8),
            lowest_container: neutral.color(15u8),
            low_container: neutral.color(20u8),
            container: neutral.color(25u8),
            high_container: neutral.color(30u8),
            highest_container: neutral.color(35u8),
            on_color: neutral.color(90u8),
            on_color_variant: neutral_variant.color(70u8),
            outline: neutral_variant.color(60u8),
            outline_variant: neutral.color(50u8),
        }
    }
}

/// A theme of colors that is shared between light and dark theme variants.
#[derive(Clone, Copy, Debug, PartialEq, Eq, Structural)]
pub struct FixedTheme {
    /// An accent background color.
    pub color: Color,
    /// An alternate background color, for less emphasized content.
    pub dim_color: Color,
    /// The primary color for content on either background color in this
    /// theme.
    pub on_color: Color,
    /// The color for de-emphasized content on either background color in
    /// this theme.
    pub on_color_variant: Color,
}

/// The fixed palette of a color source, safe in both light and dark modes.
pub open spec fn fixed_theme(source: ColorSource) -> FixedTheme {
    FixedTheme {
        color: shade(source, 90),
        dim_color: shade(source, 80),
        on_color: shade(source, 10),
        on_color_variant: shade(source, 40),
    }
}

impl FixedTheme {
    /// Returns a new color theme from `source` whose colors are safe in
    /// both light and dark themes.
    pub fn from_source(source: ColorSource) -> (r: FixedTheme)
        requires
            source.wf(),
        ensures
            r == fixed_theme(source),
    {
        FixedTheme {
            color: source.color(90u8),
            dim_color: source.color(80u8),
            on_color: source.color(10u8),
            on_color_variant: source.color(40u8),
        }
    }
}

/// A full color theme for one mode, light or dark.
#[derive(Clone, Copy, Debug, PartialEq, Eq, Structural)]
pub struct Theme {
    /// The primary color theme.
    pub primary: ColorTheme,
    /// The secondary color theme.
    pub secondary: ColorTheme,
    /// The tertiary color theme.
    pub tertiary: ColorTheme,
    /// The color theme for errors.
    pub error: ColorTheme,
    /// The theme to color surfaces.
    pub surface: SurfaceTheme,
}

/// The light theme derived from six color sources.
pub open spec fn theme_light(
    primary: ColorSource,
    secondary: ColorSource,
    tertiary: ColorSource,
    error: ColorSource,
    neutral: ColorSource,
    neutral_variant: ColorSource,
) -> Theme {
    Theme {
        primary: color_theme_light(primary),
        secondary: color_theme_light(secondary),
        tertiary: color_theme_light(tertiary),
        error: color_theme_light(error),
        surface: surface_theme_light(neutral, neutral_variant),
    }
}

/// The dark theme derived from six color sources.
pub open spec fn theme_dark(
    primary: ColorSource,
    secondary: ColorSource,
    tertiary: ColorSource,
    error: ColorSource,
    neutral: ColorSource,
    neutral_variant: ColorSource,
) -> Theme {
    Theme {
        primary: color_theme_dark(primary),
        secondary: color_theme_dark(secondary),
        tertiary: color_theme_dark(tertiary),
        error: color_theme_dark(error),
        surface: surface_theme_dark(neutral, neutral_variant),
    }
}

impl Theme {
    /// Returns a new light theme generated from the provided color
    /// sources.
    pub fn light_from_sources(
        primary: ColorSource,
        secondary: ColorSource,
        tertiary: ColorSource,
        error: ColorSource,
        neutral: ColorSource,
        neutral_variant: ColorSource,
    ) -> (r: Theme)
        requires
            primary.wf(),
            secondary.wf(),
            tertiary.wf(),
            error.wf(),
            neutral.wf(),
            neutral_variant.wf(),
        ensures
            r == theme_light(primary, secondary, tertiary, error, neutral, neutral_variant),
    {
        Theme {
            primary: ColorTheme::light_from_source(primary),
            secondary: ColorTheme::light_from_source(secondary),
            tertiary: ColorTheme::light_from_source(tertiary),
            error: ColorTheme::light_from_source(error),
            surface: SurfaceTheme::light_from_sources(neutral, neutral_variant),
        }
    }

    /// Returns a new dark theme generated from the provided color sources.
    pub fn dark_from_sources(
        primary: ColorSource,
        secondary: ColorSource,
        tertiary: ColorSource,
        error: ColorSource,
        neutral: ColorSource,
        neutral_variant: ColorSource,
    ) -> (r: Theme)
        requires
            primary.wf(),
            secondary.wf(),
            tertiary.wf(),
            error.wf(),
            neutral.wf(),
            neutral_variant.wf(),
        ensures
            r == theme_dark(primary, secondary, tertiary, error, neutral, neutral_variant),
    {
        Theme {
            primary: ColorTheme::dark_from_source(primary),
            secondary: ColorTheme::dark_from_source(secondary),
            tertiary: ColorTheme::dark_from_source(tertiary),
            error: ColorTheme::dark_from_source(error),
            surface: SurfaceTheme::dark_from_sources(neutral, neutral_variant),
        }
    }
}

/// A set of light and dark [`Theme`]s.
#[derive(Clone, Copy, Debug, PartialEq, Eq, Structural)]
pub struct ThemePair {
    /// The theme to use when the user interface is in light mode.
    pub light: Theme,
    /// The theme to use when the user interface is in dark mode.
    pub dark: Theme,
    /// A theme of the primary color that remains consistent between dark
    /// and light theme variants.
    pub primary_fixed: FixedTheme,
    /// A theme of the secondary color that remains consistent between dark
    /// and light theme variants.
    pub secondary_fixed: FixedTheme,
    /// A theme of the tertiary color that remains consistent between dark
    /// and light theme variants.
    pub tertiary_fixed: FixedTheme,
    /// A color to apply to scrims, the translucent backdrop placed behind
    /// a modal popup.
    pub scrim: Color,
    /// A color to apply to shadows.
    pub shadow: Color,
}

/// The pair of themes a color scheme derives.
pub open spec fn theme_pair(scheme: ColorScheme) -> ThemePair {
    ThemePair {
        light: theme_light(
            scheme.primary,
            scheme.secondary,
            scheme.tertiary,
            scheme.error,
            scheme.neutral,
            scheme.neutral_variant,
        ),
        dark: theme_dark(
            scheme.primary,
            scheme.secondary,
            scheme.tertiary,
            scheme.error,
            scheme.neutral,
            scheme.neutral_variant,
        ),
        primary_fixed: fixed_theme(scheme.primary),
        secondary_fixed: fixed_theme(scheme.secondary),
        tertiary_fixed: fixed_theme(scheme.tertiary),
        scrim: shade(scheme.neutral, 1),
        shadow: shade(scheme.neutral, 1),
    }
}

impl ThemePair {
    /// Returns a new theme pair generated from the provided color scheme.
    pub fn from_scheme(scheme: &ColorScheme) -> (r: ThemePair)
        requires
            scheme.wf(),
        ensures
            r == theme_pair(*scheme),
    {
        ThemePair {
            light: Theme::light_from_sources(
                scheme.primary,
                scheme.secondary,
                scheme.tertiary,
                scheme.error,
                scheme.neutral,
                scheme.neutral_variant,
            ),
            dark: Theme::dark_from_sources(
                scheme.primary,
                scheme.secondary,
                scheme.tertiary,
                scheme.error,
                scheme.neutral,
                scheme.neutral_variant,
            ),
            primary_fixed: FixedTheme::from_source(scheme.primary),
            secondary_fixed: FixedTheme::from_source(scheme.secondary),
            tertiary_fixed: FixedTheme::from_source(scheme.tertiary),
            scrim: scheme.neutral.color(1u8),
            shadow: scheme.neutral.color(1u8),
        }
    }
}

impl Default for ThemePair {
    /// The default theme pair derives from the default color scheme.
    fn default() -> (r: ThemePair)
        ensures
            exists|s: ColorScheme|
                crate::scheme::build_result(
                    crate::scheme::builder_for(crate::color::Hue { md: 138500 }),
                    s,
                ) && s.wf() && r == theme_pair(s),
    {
        let scheme = ColorScheme::default();
        ThemePair::from_scheme(&scheme)
    }
}

/// Theme derivation is deterministic: equal schemes derive equal theme
/// pairs, color for color and bit for bit.
pub proof fn lemma_theme_pair_deterministic(a: ColorScheme, b: ColorScheme)
    requires
        a == b,
    ensures
        theme_pair(a) == theme_pair(b),
{
}

} // verus!
