//! The component type system: the closed set of built-in style value kinds
//! plus the open extension slot.
//!
//! A [`Component`] is one stylable property's erased value. Every built-in
//! kind converts totally into a `Component` and partially back out of one;
//! a failed projection returns the original component unchanged, so no data
//! is lost on a type mismatch. Caller-defined kinds travel through
//! [`CustomComponent`], a shared, type-erased payload that only the exact
//! original type can read back.

use crate::animation::{EasingFunction, ZeroToOne};
use crate::color::Color;
use crate::dimension::{Dimension, Lp, Px};
use crate::fonts::{FontFamily, FontFamilyList, FontStyle, FontWeight};
use crate::names::ComponentName;
use crate::order::{ContainerLevel, FocusableWidgets, VisualOrder};
use crate::ranges::DimensionRange;
use crate::reactive::{Value, WidgetContext};
use std::sync::Arc;
use vstd::prelude::*;

verus! {

/// Describes whether a change of a value requires a relayout of the widget
/// that resolved it, rather than only a repaint.
pub trait RequireInvalidation {
    /// Whether a change of the value may move layout.
    spec fn requires_invalidation_spec(&self) -> bool;

    /// Returns true if a value change of `self` may require a relayout.
    fn requires_invalidation(&self) -> (r: bool)
        ensures
            r == self.requires_invalidation_spec(),
    ;
}

/// A shared, type-erased payload cell.
///
/// The cell carries a value of an arbitrary caller-defined type; nothing
/// about what it holds is visible to the verifier, so contracts can only be
/// stated about data kept beside it.
#[verifier::external_body]
pub struct ErasedPayload {
    value: Arc<dyn core::any::Any + Send + Sync>,
}

/// Relies on `Arc::new`: stores `value` so that later downcasts of the
/// returned cell see exactly this value at its concrete type.
#[verifier::external_body]
fn erase<T: Send + Sync + 'static>(value: T) -> (r: ErasedPayload) {
    ErasedPayload { value: Arc::new(value) }
}

/// Relies on `Any::downcast_ref`: yields the stored value only when `T` is
/// exactly the type the cell was constructed from, and nothing otherwise.
#[verifier::external_body]
fn downcast_erased<'a, T: Send + Sync + 'static>(cell: &'a ErasedPayload) -> (r: Option<
    &'a T,
>) {
    (&*cell.value as &dyn core::any::Any).downcast_ref::<T>()
}

/// Relies on `Arc::clone`: the copy shares the one stored value, so the
/// two cells are the same value.
#[verifier::external_body]
fn clone_erased(cell: &ErasedPayload) -> (r: ErasedPayload)
    ensures
        r == *cell,
{
    ErasedPayload { value: Arc::clone(&cell.value) }
}

/// A custom component value: a shared, immutable, type-erased payload
/// together with its invalidation classification.
pub struct CustomComponent {
    /// Whether changes of the payload require relayout, captured from the
    /// payload itself at construction.
    pub needs_invalidation: bool,
    /// The erased payload itself; opaque, and readable only through
    /// [`CustomComponent::downcast`].
    pub payload: ErasedPayload,
}

impl CustomComponent {
    /// Wraps an arbitrary value so that it can be used as a
    /// [`Component`]. The value's own invalidation classification is
    /// captured alongside it.
    pub fn new<T: RequireInvalidation + Send + Sync + 'static>(value: T) -> (r: CustomComponent)
        ensures
            r.needs_invalidation == value.requires_invalidation_spec(),
    {
        let needs_invalidation = value.requires_invalidation();
        CustomComponent { needs_invalidation, payload: erase(value) }
    }

    /// Returns the contained value cast as `T`, or `None` if `T` is not
    /// the same type that was provided when this component was created.
    pub fn downcast<T: Send + Sync + 'static>(&self) -> Option<&T> {
        downcast_erased(&self.payload)
    }
}

impl RequireInvalidation for CustomComponent {
    /// A custom component reports the classification captured from its
    /// payload.
    open spec fn requires_invalidation_spec(&self) -> bool {
        self.needs_invalidation
    }

    fn requires_invalidation(&self) -> (r: bool) {
        self.needs_invalidation
    }
}

impl Clone for CustomComponent {
    fn clone(&self) -> (res: CustomComponent)
        ensures
            res == *self,
    {
        CustomComponent {
            needs_invalidation: self.needs_invalidation,
            payload: clone_erased(&self.payload),
        }
    }
}

/// A value of a style component.
pub enum Component {
    /// A color.
    Color(Color),
    /// A single-dimension measurement.
    Dimension(Dimension),
    /// A range of single-dimension measurements.
    DimensionRange(DimensionRange),
    /// A fraction between zero and one.
    Percent(ZeroToOne),
    /// An easing function for animations.
    Easing(EasingFunction),
    /// A visual ordering to use for layout.
    VisualOrder(VisualOrder),
    /// A description of what widgets should be focusable.
    FocusableWidgets(FocusableWidgets),
    /// A description of the depth of a container.
    ContainerLevel(ContainerLevel),
    /// A font family.
    FontFamily(FontFamily),
    /// The weight (boldness) of a font.
    FontWeight(FontWeight),
    /// The style of a font.
    FontStyle(FontStyle),
    /// A custom component type.
    Custom(CustomComponent),
}

impl Component {
    /// Returns a [`CustomComponent`] created from `component`.
    ///
    /// Custom components allow storing nearly any thread-shareable type in
    /// the style system.
    pub fn custom<T: RequireInvalidation + Send + Sync + 'static>(component: T) -> (r: Component)
        ensures
            r matches Component::Custom(c) && c.needs_invalidation
                == component.requires_invalidation_spec(),
    {
        Component::Custom(CustomComponent::new(component))
    }
}

impl Clone for Component {
    fn clone(&self) -> (res: Component)
        ensures
            res == *self,
    {
        match self {
            Component::Color(v) => Component::Color(*v),
            Component::Dimension(v) => Component::Dimension(*v),
            Component::DimensionRange(v) => Component::DimensionRange(*v),
            Component::Percent(v) => Component::Percent(*v),
            Component::Easing(v) => Component::Easing(*v),
            Component::VisualOrder(v) => Component::VisualOrder(*v),
            Component::FocusableWidgets(v) => Component::FocusableWidgets(*v),
            Component::ContainerLevel(v) => Component::ContainerLevel(*v),
            Component::FontFamily(v) => Component::FontFamily(v.clone()),
            Component::FontWeight(v) => Component::FontWeight(*v),
            Component::FontStyle(v) => Component::FontStyle(*v),
            Component::Custom(v) => Component::Custom(v.clone()),
        }
    }
}

impl RequireInvalidation for Component {
    /// An erased component classifies as the kind it carries does.
    open spec fn requires_invalidation_spec(&self) -> bool {
        match self {
            Component::Color(_) => false,
            Component::Dimension(_) => true,
            Component::DimensionRange(_) => true,
            Component::Percent(_) => true,
            Component::Easing(_) => false,
            Component::VisualOrder(_) => true,
            Component::FocusableWidgets(_) => false,
            Component::ContainerLevel(_) => true,
            Component::FontFamily(_) => true,
            Component::FontWeight(_) => true,
            Component::FontStyle(_) => true,
            Component::Custom(c) => c.needs_invalidation,
        }
    }

    fn requires_invalidation(&self) -> (r: bool) {
        match self {
            Component::Color(_) => false,
            Component::Dimension(_) => true,
            Component::DimensionRange(_) => true,
            Component::Percent(_) => true,
            Component::Easing(_) => false,
            Component::VisualOrder(_) => true,
            Component::FocusableWidgets(_) => false,
            Component::ContainerLevel(_) => true,
            Component::FontFamily(_) => true,
            Component::FontWeight(_) => true,
            Component::FontStyle(_) => true,
            Component::Custom(c) => c.requires_invalidation(),
        }
    }
}

/// When an erased component is a custom payload whose captured
/// classification is `invalidate`.
pub open spec fn custom_with_classification(c: Component, invalidate: bool) -> bool {
    c matches Component::Custom(cc) && cc.needs_invalidation == invalidate
}

/// A type that can be converted to and from [`Component`].
///
/// The injection into a component is total; the projection back out is
/// partial and returns the original component unchanged when it holds a
/// different kind.
pub trait ComponentType: RequireInvalidation + Sized {
    /// Whether the two spec functions below pin the conversions exactly.
    /// Kinds that travel through the type-erased extension slot cannot be
    /// pinned and answer false.
    spec fn obeys_component_spec() -> bool;

    /// The component the value converts into.
    spec fn to_component_spec(self) -> Component;

    /// The value a component projects to, where it holds this kind.
    spec fn from_component_spec(component: Component) -> Option<Self>;

    /// Returns this value, wrapped in a [`Component`]. A kind whose
    /// conversion cannot be pinned still lands in the custom slot carrying
    /// its own invalidation classification.
    fn into_component(self) -> (c: Component)
        ensures
            Self::obeys_component_spec() ==> c == self.to_component_spec(),
            !Self::obeys_component_spec() ==> custom_with_classification(
                c,
                self.requires_invalidation_spec(),
            ),
    ;

    /// Attempts to extract this type from `component`. If `component` does
    /// not contain this type, `Err(component)` is returned, carrying the
    /// original value unchanged.
    fn try_from_component(component: Component) -> (r: Result<Self, Component>)
        ensures
            r matches Err(e) ==> e == component,
            Self::obeys_component_spec() ==> match r {
                Ok(v) => Self::from_component_spec(component) == Some(v),
                Err(_) => Self::from_component_spec(component) is None,
            },
    ;
}

impl RequireInvalidation for Color {
    /// A color change repaints without moving layout.
    open spec fn requires_invalidation_spec(&self) -> bool {
        false
    }

    fn requires_invalidation(&self) -> (r: bool) {
        false
    }
}

impl ComponentType for Color {
    open spec fn obeys_component_spec() -> bool {
        true
    }

    open spec fn to_component_spec(self) -> Component {
        Component::Color(self)
    }

    open spec fn from_component_spec(component: Component) -> Option<Color> {
        match component {
            Component::Color(v) => Some(v),
            _ => None,
        }
    }

    fn into_component(self) -> (c: Component) {
        Component::Color(self)
    }

    fn try_from_component(component: Component) -> (r: Result<Self, Component>) {
        match component {
            Component::Color(v) => Ok(v),
            other => Err(other),
        }
    }
}

impl RequireInvalidation for Dimension {
    /// A measurement change moves layout.
    open spec fn requires_invalidation_spec(&self) -> bool {
        true
    }

    fn requires_invalidation(&self) -> (r: bool) {
        true
    }
}

impl ComponentType for Dimension {
    open spec fn obeys_component_spec() -> bool {
        true
    }

    open spec fn to_component_spec(self) -> Component {
        Component::Dimension(self)
    }

    open spec fn from_component_spec(component: Component) -> Option<Dimension> {
        match component {
            Component::Dimension(v) => Some(v),
            _ => None,
        }
    }

    fn into_component(self) -> (c: Component) {
        Component::Dimension(self)
    }

    fn try_from_component(component: Component) -> (r: Result<Self, Component>) {
        match component {
            Component::Dimension(v) => Ok(v),
            other => Err(other),
        }
    }
}

impl RequireInvalidation for Px {
    /// A measurement change moves layout.
    open spec fn requires_invalidation_spec(&self) -> bool {
        true
    }

    fn requires_invalidation(&self) -> (r: bool) {
        true
    }
}

impl ComponentType for Px {
    open spec fn obeys_component_spec() -> bool {
        true
    }

    open spec fn to_component_spec(self) -> Component {
        Component::Dimension(Dimension::Px(self))
    }

    open spec fn from_component_spec(component: Component) -> Option<Px> {
        match component {
            Component::Dimension(Dimension::Px(v)) => Some(v),
            _ => None,
        }
    }

    fn into_component(self) -> (c: Component) {
        Component::Dimension(Dimension::Px(self))
    }

    fn try_from_component(component: Component) -> (r: Result<Self, Component>) {
        match component {
            Component::Dimension(Dimension::Px(v)) => Ok(v),
            other => Err(other),
        }
    }
}

impl RequireInvalidation for Lp {
    /// A measurement change moves layout.
    open spec fn requires_invalidation_spec(&self) -> bool {
        true
    }

    fn requires_invalidation(&self) -> (r: bool) {
        true
    }
}

impl ComponentType for Lp {
    open spec fn obeys_component_spec() -> bool {
        true
    }

    open spec fn to_component_spec(self) -> Component {
        Component::Dimension(Dimension::Lp(self))
    }

    open spec fn from_component_spec(component: Component) -> Option<Lp> {
        match component {
            Component::Dimension(Dimension::Lp(v)) => Some(v),
            _ => None,
        }
    }

    fn into_component(self) -> (c: Component) {
        Component::Dimension(Dimension::Lp(self))
    }

    fn try_from_component(component: Component) -> (r: Result<Self, Component>) {
        match component {
            Component::Dimension(Dimension::Lp(v)) => Ok(v),
            other => Err(other),
        }
    }
}

impl RequireInvalidation for DimensionRange {
    /// A measurement range change moves layout.
    open spec fn requires_invalidation_spec(&self) -> bool {
        true
    }

    fn requires_invalidation(&self) -> (r: bool) {
        true
    }
}

impl ComponentType for DimensionRange {
    open spec fn obeys_component_spec() -> bool {
        true
    }

    open spec fn to_component_spec(self) -> Component {
        Component::DimensionRange(self)
    }

    open spec fn from_component_spec(component: Component) -> Option<DimensionRange> {
        match component {
            Component::DimensionRange(v) => Some(v),
            _ => None,
        }
    }

    fn into_component(self) -> (c: Component) {
        Component::DimensionRange(self)
    }

    fn try_from_component(component: Component) -> (r: Result<Self, Component>) {
        match component {
            Component::DimensionRange(v) => Ok(v),
            other => Err(other),
        }
    }
}

impl RequireInvalidation for ZeroToOne {
    /// A fraction is a measurement-like value; changing it moves layout.
    open spec fn requires_invalidation_spec(&self) -> bool {
        true
    }

    fn requires_invalidation(&self) -> (r: bool) {
        true
    }
}

impl ComponentType for ZeroToOne {
    open spec fn obeys_component_spec() -> bool {
        true
    }

    open spec fn to_component_spec(self) -> Component {
        Component::Percent(self)
    }

    open spec fn from_component_spec(component: Component) -> Option<ZeroToOne> {
        match component {
            Component::Percent(v) => Some(v),
            _ => None,
        }
    }

    fn into_component(self) -> (c: Component) {
        Component::Percent(self)
    }

    fn try_from_component(component: Component) -> (r: Result<Self, Component>) {
        match component {
            Component::Percent(v) => Ok(v),
            other => Err(other),
        }
    }
}

impl RequireInvalidation for EasingFunction {
    /// An easing curve shapes animation playback; it never moves layout by
    /// itself.
    open spec fn requires_invalidation_spec(&self) -> bool {
        false
    }

    fn requires_invalidation(&self) -> (r: bool) {
        false
    }
}

impl ComponentType for EasingFunction {
    open spec fn obeys_component_spec() -> bool {
        true
    }

    open spec fn to_component_spec(self) -> Component {
        Component::Easing(self)
    }

    open spec fn from_component_spec(component: Component) -> Option<EasingFunction> {
        match component {
            Component::Easing(v) => Some(v),
            _ => None,
        }
    }

    fn into_component(self) -> (c: Component) {
        Component::Easing(self)
    }

    fn try_from_component(component: Component) -> (r: Result<Self, Component>) {
        match component {
            Component::Easing(v) => Ok(v),
            other => Err(other),
        }
    }
}

impl RequireInvalidation for VisualOrder {
    /// Reordering content moves layout.
    open spec fn requires_invalidation_spec(&self) -> bool {
        true
    }

    fn requires_invalidation(&self) -> (r: bool) {
        true
    }
}

impl ComponentType for VisualOrder {
    open spec fn obeys_component_spec() -> bool {
        true
    }

    open spec fn to_component_spec(self) -> Component {
        Component::VisualOrder(self)
    }

    open spec fn from_component_spec(component: Component) -> Option<VisualOrder> {
        match component {
            Component::VisualOrder(v) => Some(v),
            _ => None,
        }
    }

    fn into_component(self) -> (c: Component) {
        Component::VisualOrder(self)
    }

    fn try_from_component(component: Component) -> (r: Result<Self, Component>) {
        match component {
            Component::VisualOrder(v) => Ok(v),
            other => Err(other),
        }
    }
}

impl RequireInvalidation for FocusableWidgets {
    /// Focus policy affects input handling only.
    open spec fn requires_invalidation_spec(&self) -> bool {
        false
    }

    fn requires_invalidation(&self) -> (r: bool) {
        false
    }
}

impl ComponentType for FocusableWidgets {
    open spec fn obeys_component_spec() -> bool {
        true
    }

    open spec fn to_component_spec(self) -> Component {
        Component::FocusableWidgets(self)
    }

    open spec fn from_component_spec(component: Component) -> Option<FocusableWidgets> {
        match component {
            Component::FocusableWidgets(v) => Some(v),
            _ => None,
        }
    }

    fn into_component(self) -> (c: Component) {
        Component::FocusableWidgets(self)
    }

    fn try_from_component(component: Component) -> (r: Result<Self, Component>) {
        match component {
            Component::FocusableWidgets(v) => Ok(v),
            other => Err(other),
        }
    }
}

impl RequireInvalidation for ContainerLevel {
    /// Container depth picks surface colors and spacing; it moves layout.
    open spec fn requires_invalidation_spec(&self) -> bool {
        true
    }

    fn requires_invalidation(&self) -> (r: bool) {
        true
    }
}

impl ComponentType for ContainerLevel {
    open spec fn obeys_component_spec() -> bool {
        true
    }

    open spec fn to_component_spec(self) -> Component {
        Component::ContainerLevel(self)
    }

    open spec fn from_component_spec(component: Component) -> Option<ContainerLevel> {
        match component {
            Component::ContainerLevel(v) => Some(v),
            _ => None,
        }
    }

    fn into_component(self) -> (c: Component) {
        Component::ContainerLevel(self)
    }

    fn try_from_component(component: Component) -> (r: Result<Self, Component>) {
        match component {
            Component::ContainerLevel(v) => Ok(v),
            other => Err(other),
        }
    }
}

impl RequireInvalidation for FontFamily {
    /// A different family reshapes text.
    open spec fn requires_invalidation_spec(&self) -> bool {
        true
    }

    fn requires_invalidation(&self) -> (r: bool) {
        true
    }
}

impl ComponentType for FontFamily {
    open spec fn obeys_component_spec() -> bool {
        true
    }

    open spec fn to_component_spec(self) -> Component {
        Component::FontFamily(self)
    }

    open spec fn from_component_spec(component: Component) -> Option<FontFamily> {
        match component {
            Component::FontFamily(v) => Some(v),
            _ => None,
        }
    }

    fn into_component(self) -> (c: Component) {
        Component::FontFamily(self)
    }

    fn try_from_component(component: Component) -> (r: Result<Self, Component>) {
        match component {
            Component::FontFamily(v) => Ok(v),
            other => Err(other),
        }
    }
}

impl RequireInvalidation for FontWeight {
    /// A different weight reshapes text.
    open spec fn requires_invalidation_spec(&self) -> bool {
        true
    }

    fn requires_invalidation(&self) -> (r: bool) {
        true
    }
}

impl ComponentType for FontWeight {
    open spec fn obeys_component_spec() -> bool {
        true
    }

    open spec fn to_component_spec(self) -> Component {
        Component::FontWeight(self)
    }

    open spec fn from_component_spec(component: Component) -> Option<FontWeight> {
        match component {
            Component::FontWeight(v) => Some(v),
            _ => None,
        }
    }

    fn into_component(self) -> (c: Component) {
        Component::FontWeight(self)
    }

    fn try_from_component(component: Component) -> (r: Result<Self, Component>) {
        match component {
            Component::FontWeight(v) => Ok(v),
            other => Err(other),
        }
    }
}

impl RequireInvalidation for FontStyle {
    /// A different style reshapes text.
    open spec fn requires_invalidation_spec(&self) -> bool {
        true
    }

    fn requires_invalidation(&self) -> (r: bool) {
        true
    }
}

impl ComponentType for FontStyle {
    open spec fn obeys_component_spec() -> bool {
        true
    }

    open spec fn to_component_spec(self) -> Component {
        Component::FontStyle(self)
    }

    open spec fn from_component_spec(component: Component) -> Option<FontStyle> {
        match component {
            Component::FontStyle(v) => Some(v),
            _ => None,
        }
    }

    fn into_component(self) -> (c: Component) {
        Component::FontStyle(self)
    }

    fn try_from_component(component: Component) -> (r: Result<Self, Component>) {
        match component {
            Component::FontStyle(v) => Ok(v),
            other => Err(other),
        }
    }
}

impl ComponentType for CustomComponent {
    open spec fn obeys_component_spec() -> bool {
        true
    }

    open spec fn to_component_spec(self) -> Component {
        Component::Custom(self)
    }

    open spec fn from_component_spec(component: Component) -> Option<CustomComponent> {
        match component {
            Component::Custom(v) => Some(v),
            _ => None,
        }
    }

    fn into_component(self) -> (c: Component) {
        Component::Custom(self)
    }

    fn try_from_component(component: Component) -> (r: Result<Self, Component>) {
        match component {
            Component::Custom(v) => Ok(v),
            other => Err(other),
        }
    }
}

impl RequireInvalidation for FontFamilyList {
    /// A different family list reshapes text.
    open spec fn requires_invalidation_spec(&self) -> bool {
        true
    }

    fn requires_invalidation(&self) -> (r: bool) {
        true
    }
}

impl ComponentType for FontFamilyList {
    /// A family list travels through the type-erased extension slot; the
    /// conversion cannot be pinned by the component specs.
    open spec fn obeys_component_spec() -> bool {
        false
    }

    open spec fn to_component_spec(self) -> Component {
        arbitrary()
    }

    open spec fn from_component_spec(component: Component) -> Option<FontFamilyList> {
        None
    }

    fn into_component(self) -> (c: Component) {
        Component::custom(self)
    }

    fn try_from_component(component: Component) -> (r: Result<Self, Component>) {
        match component {
            Component::Custom(custom) => {
                let list: Option<&FontFamilyList> = custom.downcast();
                match list {
                    Some(value) => Ok(value.clone()),
                    None => Err(Component::Custom(custom)),
                }
            },
            other => Err(other),
        }
    }
}

impl RequireInvalidation for crate::edges::CornerRadii {
    /// Rounding corners changes the shape's geometry.
    open spec fn requires_invalidation_spec(&self) -> bool {
        true
    }

    fn requires_invalidation(&self) -> (r: bool) {
        true
    }
}

impl ComponentType for crate::edges::CornerRadii {
    /// Corner radii travel through the type-erased extension slot; the
    /// conversion cannot be pinned by the component specs.
    open spec fn obeys_component_spec() -> bool {
        false
    }

    open spec fn to_component_spec(self) -> Component {
        arbitrary()
    }

    open spec fn from_component_spec(component: Component) -> Option<crate::edges::CornerRadii> {
        None
    }

    fn into_component(self) -> (c: Component) {
        Component::custom(self)
    }

    fn try_from_component(component: Component) -> (r: Result<Self, Component>) {
        match component {
            Component::Custom(custom) => {
                let radii: Option<&crate::edges::CornerRadii> = custom.downcast();
                match radii {
                    Some(value) => Ok(*value),
                    None => Err(Component::Custom(custom)),
                }
            },
            other => Err(other),
        }
    }
}

/// A type that represents a named style component.
pub trait NamedComponent {
    /// The name under which the component is stored.
    spec fn name_spec(&self) -> ComponentName;

    /// Returns the name of the style component.
    fn name(&self) -> (r: ComponentName)
        ensures
            r == self.name_spec(),
    ;
}

impl NamedComponent for ComponentName {
    open spec fn name_spec(&self) -> ComponentName {
        *self
    }

    fn name(&self) -> (r: ComponentName) {
        self.clone()
    }
}

/// A type that represents a named component with a default value of a
/// specific Rust type.
pub trait ComponentDefinition: NamedComponent {
    /// The type that will be contained in the [`Component`].
    type ComponentType: ComponentType;

    /// The default the definition yields under a given resolution context.
    spec fn default_value_spec(&self, context: &WidgetContext) -> Self::ComponentType;

    /// Returns the default value to use for this component.
    fn default_value(&self, context: &WidgetContext) -> (r: Self::ComponentType)
        ensures
            r == self.default_value_spec(context),
    ;
}

/// A type that represents a named component with a default erased value.
pub trait ComponentDefaultvalue: NamedComponent {
    /// Returns the default value for this component, already erased.
    fn default_component_value(&self, context: &WidgetContext) -> Component;
}

impl<T: ComponentDefinition> ComponentDefaultvalue for T {
    fn default_component_value(&self, context: &WidgetContext) -> Component {
        self.default_value(context).into_component()
    }
}

/// A value that can be converted into a `Value<Component>` for storage in
/// the registry.
pub trait IntoComponentValue: Sized {
    /// The stored value the conversion yields.
    spec fn into_component_value_spec(self) -> Value<Component>;

    /// Returns `self` stored in a component value.
    fn into_component_value(self) -> (r: Value<Component>)
        ensures
            r == self.into_component_value_spec(),
    ;
}

impl IntoComponentValue for Component {
    open spec fn into_component_value_spec(self) -> Value<Component> {
        Value::Constant(self)
    }

    fn into_component_value(self) -> (r: Value<Component>) {
        Value::Constant(self)
    }
}

impl IntoComponentValue for Value<Component> {
    open spec fn into_component_value_spec(self) -> Value<Component> {
        self
    }

    fn into_component_value(self) -> (r: Value<Component>) {
        self
    }
}

impl IntoComponentValue for crate::reactive::Dynamic<Component> {
    open spec fn into_component_value_spec(self) -> Value<Component> {
        Value::Dynamic(self)
    }

    fn into_component_value(self) -> (r: Value<Component>) {
        Value::Dynamic(self)
    }
}

impl IntoComponentValue for Color {
    open spec fn into_component_value_spec(self) -> Value<Component> {
        Value::Constant(self.to_component_spec())
    }

    fn into_component_value(self) -> (r: Value<Component>) {
        Value::Constant(self.into_component())
    }
}

impl IntoComponentValue for Dimension {
    open spec fn into_component_value_spec(self) -> Value<Component> {
        Value::Constant(self.to_component_spec())
    }

    fn into_component_value(self) -> (r: Value<Component>) {
        Value::Constant(self.into_component())
    }
}

impl IntoComponentValue for Px {
    open spec fn into_component_value_spec(self) -> Value<Component> {
        Value::Constant(self.to_component_spec())
    }

    fn into_component_value(self) -> (r: Value<Component>) {
        Value::Constant(self.into_component())
    }
}

impl IntoComponentValue for Lp {
    open spec fn into_component_value_spec(self) -> Value<Component> {
        Value::Constant(self.to_component_spec())
    }

    fn into_component_value(self) -> (r: Value<Component>) {
        Value::Constant(self.into_component())
    }
}

impl IntoComponentValue for DimensionRange {
    open spec fn into_component_value_spec(self) -> Value<Component> {
        Value::Constant(self.to_component_spec())
    }

    fn into_component_value(self) -> (r: Value<Component>) {
        Value::Constant(self.into_component())
    }
}

impl IntoComponentValue for ZeroToOne {
    open spec fn into_component_value_spec(self) -> Value<Component> {
        Value::Constant(self.to_component_spec())
    }

    fn into_component_value(self) -> (r: Value<Component>) {
        Value::Constant(self.into_component())
    }
}

impl IntoComponentValue for EasingFunction {
    open spec fn into_component_value_spec(self) -> Value<Component> {
        Value::Constant(self.to_component_spec())
    }

    fn into_component_value(self) -> (r: Value<Component>) {
        Value::Constant(self.into_component())
    }
}

impl IntoComponentValue for VisualOrder {
    open spec fn into_component_value_spec(self) -> Value<Component> {
        Value::Constant(self.to_component_spec())
    }

    fn into_component_value(self) -> (r: Value<Component>) {
        Value::Constant(self.into_component())
    }
}

impl IntoComponentValue for FocusableWidgets {
    open spec fn into_component_value_spec(self) -> Value<Component> {
        Value::Constant(self.to_component_spec())
    }

    fn into_component_value(self) -> (r: Value<Component>) {
        Value::Constant(self.into_component())
    }
}

impl IntoComponentValue for ContainerLevel {
    open spec fn into_component_value_spec(self) -> Value<Component> {
        Value::Constant(self.to_component_spec())
    }

    fn into_component_value(self) -> (r: Value<Component>) {
        Value::Constant(self.into_component())
    }
}

impl IntoComponentValue for FontFamily {
    open spec fn into_component_value_spec(self) -> Value<Component> {
        Value::Constant(self.to_component_spec())
    }

    fn into_component_value(self) -> (r: Value<Component>) {
        Value::Constant(self.into_component())
    }
}

impl IntoComponentValue for FontWeight {
    open spec fn into_component_value_spec(self) -> Value<Component> {
        Value::Constant(self.to_component_spec())
    }

    fn into_component_value(self) -> (r: Value<Component>) {
        Value::Constant(self.into_component())
    }
}

impl IntoComponentValue for FontStyle {
    open spec fn into_component_value_spec(self) -> Value<Component> {
        Value::Constant(self.to_component_spec())
    }

    fn into_component_value(self) -> (r: Value<Component>) {
        Value::Constant(self.into_component())
    }
}

impl IntoComponentValue for CustomComponent {
    open spec fn into_component_value_spec(self) -> Value<Component> {
        Value::Constant(self.to_component_spec())
    }

    fn into_component_value(self) -> (r: Value<Component>) {
        Value::Constant(self.into_component())
    }
}

impl Value<Component> {
    /// Returns the component a read of the value yields: the constant, or
    /// the snapshot of the dynamic cell.
    pub fn get(&self) -> (r: Component)
        ensures
            r == self.snapshot_spec(),
    {
        match self {
            Value::Constant(c) => c.clone(),
            Value::Dynamic(d) => d.value.clone(),
        }
    }
}

/// Every built-in kind round-trips through the erased component
/// representation: projecting the component a value was injected into
/// yields that value back, for every representable value.
pub proof fn lemma_color_round_trip(v: Color)
    ensures
        Color::from_component_spec(v.to_component_spec()) == Some(v),
{
}

/// Every built-in kind round-trips through the erased component
/// representation: projecting the component a value was injected into
/// yields that value back, for every representable value.
pub proof fn lemma_dimension_round_trip(v: Dimension)
    ensures
        Dimension::from_component_spec(v.to_component_spec()) == Some(v),
{
}

/// Every built-in kind round-trips through the erased component
/// representation: projecting the component a value was injected into
/// yields that value back, for every representable value.
pub proof fn lemma_px_round_trip(v: Px)
    ensures
        Px::from_component_spec(v.to_component_spec()) == Some(v),
{
}

/// Every built-in kind round-trips through the erased component
/// representation: projecting the component a value was injected into
/// yields that value back, for every representable value.
pub proof fn lemma_lp_round_trip(v: Lp)
    ensures
        Lp::from_component_spec(v.to_component_spec()) == Some(v),
{
}

/// Every built-in kind round-trips through the erased component
/// representation: projecting the component a value was injected into
/// yields that value back, for every representable value.
pub proof fn lemma_dimension_range_round_trip(v: DimensionRange)
    ensures
        DimensionRange::from_component_spec(v.to_component_spec()) == Some(v),
{
}

/// Every built-in kind round-trips through the erased component
/// representation: projecting the component a value was injected into
/// yields that value back, for every representable value.
pub proof fn lemma_percent_round_trip(v: ZeroToOne)
    ensures
        ZeroToOne::from_component_spec(v.to_component_spec()) == Some(v),
{
}

/// Every built-in kind round-trips through the erased component
/// representation: projecting the component a value was injected into
/// yields that value back, for every representable value.
pub proof fn lemma_easing_round_trip(v: EasingFunction)
    ensures
        EasingFunction::from_component_spec(v.to_component_spec()) == Some(v),
{
}

/// Every built-in kind round-trips through the erased component
/// representation: projecting the component a value was injected into
/// yields that value back, for every representable value.
pub proof fn lemma_visual_order_round_trip(v: VisualOrder)
    ensures
        VisualOrder::from_component_spec(v.to_component_spec()) == Some(v),
{
}

/// Every built-in kind round-trips through the erased component
/// representation: projecting the component a value was injected into
/// yields that value back, for every representable value.
pub proof fn lemma_focusable_widgets_round_trip(v: FocusableWidgets)
    ensures
        FocusableWidgets::from_component_spec(v.to_component_spec()) == Some(v),
{
}

/// Every built-in kind round-trips through the erased component
/// representation: projecting the component a value was injected into
/// yields that value back, for every representable value.
pub proof fn lemma_container_level_round_trip(v: ContainerLevel)
    ensures
        ContainerLevel::from_component_spec(v.to_component_spec()) == Some(v),
{
}

/// Every built-in kind round-trips through the erased component
/// representation: projecting the component a value was injected into
/// yields that value back, for every representable value.
pub proof fn lemma_font_family_round_trip(v: FontFamily)
    ensures
        FontFamily::from_component_spec(v.to_component_spec()) == Some(v),
{
}

/// Every built-in kind round-trips through the erased component
/// representation: projecting the component a value was injected into
/// yields that value back, for every representable value.
pub proof fn lemma_font_weight_round_trip(v: FontWeight)
    ensures
        FontWeight::from_component_spec(v.to_component_spec()) == Some(v),
{
}

/// Every built-in kind round-trips through the erased component
/// representation: projecting the component a value was injected into
/// yields that value back, for every representable value.
pub proof fn lemma_font_style_round_trip(v: FontStyle)
    ensures
        FontStyle::from_component_spec(v.to_component_spec()) == Some(v),
{
}

/// Every built-in kind round-trips through the erased component
/// representation: projecting the component a value was injected into
/// yields that value back, for every representable value.
pub proof fn lemma_custom_component_round_trip(v: CustomComponent)
    ensures
        CustomComponent::from_component_spec(v.to_component_spec()) == Some(v),
{
}

} // verus!
