//! A style-value library for retained-mode user interfaces.
//!
//! The crate provides a named, dynamically typed property store (a style
//! registry) together with the value kinds that widgets resolve through it:
//! unit-aware measurements and measurement ranges, perceptual color sources
//! and derived theme palettes, font descriptions, ordering and focus options,
//! and an open extension slot for caller-defined payloads.

pub mod animation;
pub mod color;
pub mod component;
pub mod dimension;
pub mod edges;
pub mod fonts;
pub mod names;
pub mod order;
pub mod ranges;
pub mod reactive;
pub mod scheme;
pub mod styles;
pub mod theme;

pub use animation::{EasingFunction, ZeroToOne};
pub use color::{Color, ColorExt, ColorSource, Hue, Lightness};
pub use component::{
    Component, ComponentDefaultvalue, ComponentDefinition, ComponentType, CustomComponent,
    IntoComponentValue, NamedComponent, RequireInvalidation,
};
pub use dimension::{Dimension, Fraction, Lp, Px, UPx};
pub use edges::{CornerRadii, Edges, Size};
pub use fonts::{FontFamily, FontFamilyList, FontStyle, FontWeight};
pub use names::{ComponentName, Name};
pub use order::{ContainerLevel, FocusableWidgets, HorizontalOrder, VerticalOrder, VisualOrder};
pub use ranges::{DimensionBound, DimensionRange, FlexibleDimension};
pub use reactive::{Dynamic, IntoValue, Value, WidgetContext};
pub use scheme::{ColorScheme, ColorSchemeBuilder, ProtoColor};
pub use styles::{StyleEntry, Styles};
pub use theme::{ColorTheme, FixedTheme, SurfaceTheme, Theme, ThemePair};
