//! Behavior of the style registry and the component type system.

use uistyles::animation::{EasingFunction, ZeroToOne};
use uistyles::color::{Color, ColorSource, Hue};
use uistyles::component::{
    Component, ComponentDefinition, ComponentType, NamedComponent, RequireInvalidation,
};
use uistyles::dimension::{Dimension, Lp, Px};
use uistyles::order::{ContainerLevel, FocusableWidgets, VisualOrder};
use uistyles::ranges::DimensionRange;
use uistyles::fonts::{FontStyle, FontWeight};
use uistyles::edges::CornerRadii;
use uistyles::fonts::{FontFamily, FontFamilyList};
use uistyles::names::{ComponentName, Name};
use uistyles::reactive::{Dynamic, Value, WidgetContext};
use uistyles::styles::Styles;

fn name(group: &str, name: &str) -> ComponentName {
    ComponentName::new(Name::new(String::from(group)), Name::new(String::from(name)))
}

struct WidthDef {
    name: ComponentName,
}

impl WidthDef {
    fn new() -> WidthDef {
        WidthDef {
            name: name("layout", "width"),
        }
    }
}

impl NamedComponent for WidthDef {
    fn name_spec(&self) -> ComponentName {
        self.name.clone()
    }

    fn name(&self) -> ComponentName {
        self.name.clone()
    }
}

impl ComponentDefinition for WidthDef {
    type ComponentType = Dimension;

    fn default_value_spec(&self, _context: &WidgetContext) -> Dimension {
        Dimension::Px(Px(42))
    }

    fn default_value(&self, _context: &WidgetContext) -> Dimension {
        Dimension::Px(Px(42))
    }
}

#[test]
fn empty_registry_returns_default_without_subscribing() {
    let styles = Styles::new();
    let def = WidthDef::new();
    let mut context = WidgetContext::new();
    let got = styles.get(&def, &mut context);
    assert_eq!(got, Dimension::Px(Px(42)));
    assert!(context.invalidated.is_empty());
    assert!(context.redrawn.is_empty());
}

#[test]
fn get_returns_inserted_value() {
    let mut styles = Styles::new();
    let def = WidthDef::new();
    let mut context = WidgetContext::new();
    styles.insert(&def, Dimension::Px(Px(7)));
    let got = styles.get(&def, &mut context);
    assert_eq!(got, Dimension::Px(Px(7)));
    // A constant value registers no subscription.
    assert!(context.invalidated.is_empty());
    assert!(context.redrawn.is_empty());
}

#[test]
fn type_mismatch_falls_back_to_default_without_subscribing() {
    let mut styles = Styles::new();
    let def = WidthDef::new();
    let mut context = WidgetContext::new();
    // Store a color under the name the dimension definition resolves.
    styles.insert_named(
        name("layout", "width"),
        Component::Percent(ZeroToOne::new(5000)),
    );
    let got = styles.get(&def, &mut context);
    assert_eq!(got, Dimension::Px(Px(42)));
    assert!(context.invalidated.is_empty());
    assert!(context.redrawn.is_empty());
}

#[test]
fn dynamic_hit_registers_invalidation_subscription() {
    let mut styles = Styles::new();
    let def = WidthDef::new();
    let mut context = WidgetContext::new();
    styles.insert_named(
        name("layout", "width"),
        Dynamic {
            id: 7,
            value: Component::Dimension(Dimension::Px(Px(3))),
        },
    );
    let got = styles.get(&def, &mut context);
    assert_eq!(got, Dimension::Px(Px(3)));
    // A dimension change moves layout, so the subscription invalidates.
    assert_eq!(context.invalidated, vec![7]);
    assert!(context.redrawn.is_empty());
}

#[test]
fn clone_isolates_later_writes() {
    let mut a = Styles::new();
    let n = name("surface", "background");
    a.insert_named(n.clone(), Dimension::Px(Px(1)));
    let b = a.clone();
    a.insert_named(n.clone(), Dimension::Px(Px(2)));

    let in_b = b.get_named(&n).expect("clone kept the entry");
    match in_b {
        Value::Constant(Component::Dimension(d)) => assert_eq!(*d, Dimension::Px(Px(1))),
        _ => panic!("clone changed the stored value"),
    }
    let in_a = a.get_named(&n).expect("original kept the entry");
    match in_a {
        Value::Constant(Component::Dimension(d)) => assert_eq!(*d, Dimension::Px(Px(2))),
        _ => panic!("write changed the stored kind"),
    }
}

#[test]
fn append_overwrites_on_name_collision() {
    let n = name("surface", "background");
    let mut a = Styles::new();
    a.insert_named(n.clone(), Dimension::Px(Px(1)));
    a.insert_named(name("surface", "outline"), Dimension::Px(Px(9)));
    let mut b = Styles::new();
    b.insert_named(n.clone(), Dimension::Px(Px(2)));
    a.append(b);
    assert_eq!(a.len(), 2);
    match a.get_named(&n).expect("entry kept") {
        Value::Constant(Component::Dimension(d)) => assert_eq!(*d, Dimension::Px(Px(2))),
        _ => panic!("append kept the overwritten value"),
    }
}

#[test]
fn insert_overwrites_unconditionally() {
    let n = name("surface", "background");
    let mut styles = Styles::new();
    styles.insert_named(n.clone(), Dimension::Px(Px(1)));
    styles.insert_named(n.clone(), Dimension::Px(Px(2)));
    assert_eq!(styles.len(), 1);
}

#[test]
fn names_compare_by_spelling() {
    let mut styles = Styles::new();
    styles.insert_named(name("widget", "color"), Dimension::Px(Px(5)));
    // A separately allocated but equally spelled name finds the entry.
    let lookup = name("widget", "color");
    assert!(styles.get_named(&lookup).is_some());
    assert!(styles.get_named(&name("widget", "colour")).is_none());
}

#[test]
fn with_builds_and_stores() {
    let def = WidthDef::new();
    let styles = Styles::new().with(&def, Dimension::Px(Px(11)));
    let mut context = WidgetContext::new();
    assert_eq!(styles.get(&def, &mut context), Dimension::Px(Px(11)));
}

#[test]
fn custom_component_round_trips_through_downcast() {
    let radii = CornerRadii::uniform(Dimension::Px(Px(4)));
    let component = radii.into_component();
    match CornerRadii::try_from_component(component) {
        Ok(back) => assert_eq!(back, radii),
        Err(_) => panic!("downcast at the construction type failed"),
    }
}

#[test]
fn custom_component_rejects_other_types() {
    let radii = CornerRadii::uniform(Dimension::Px(Px(4)));
    let component = radii.into_component();
    // A custom payload of a different type projects to an error carrying
    // the original component.
    match FontFamilyList::try_from_component(component) {
        Ok(_) => panic!("downcast at a foreign type succeeded"),
        Err(original) => match CornerRadii::try_from_component(original) {
            Ok(back) => assert_eq!(back, radii),
            Err(_) => panic!("failed projection lost the original value"),
        },
    }
}

#[test]
fn font_family_list_round_trips_through_custom() {
    let mut list = FontFamilyList::new();
    list.push(FontFamily::Named(String::from("Iosevka")));
    list.push(FontFamily::Monospace);
    let component = list.into_component();
    match FontFamilyList::try_from_component(component) {
        Ok(back) => {
            assert_eq!(back.len(), 2);
            assert!(matches!(back.get(1), FontFamily::Monospace));
            match back.get(0) {
                FontFamily::Named(n) => assert_eq!(n, "Iosevka"),
                _ => panic!("family order lost"),
            }
        }
        Err(_) => panic!("list did not round-trip"),
    }
}

#[test]
fn custom_component_delegates_invalidation() {
    let radii = CornerRadii::uniform(Dimension::Px(Px(4)));
    let component = Component::custom(radii);
    assert!(component.requires_invalidation());
}

#[test]
fn component_invalidation_table() {
    let color = Color::new(
        ColorSource::new(Hue::from_degrees(10), ZeroToOne::new(5000)),
        ZeroToOne::new(5000),
        ZeroToOne::new(10000),
    );
    assert!(!Component::Color(color).requires_invalidation());
    assert!(Component::Dimension(Dimension::Px(Px(1))).requires_invalidation());
    assert!(!Component::FocusableWidgets(FocusableWidgets::All).requires_invalidation());
    assert!(!Component::Easing(EasingFunction::Linear).requires_invalidation());
    assert!(Component::Percent(ZeroToOne::new(1000)).requires_invalidation());
}

#[test]
fn every_builtin_kind_round_trips() {
    fn check<T: ComponentType + PartialEq + std::fmt::Debug + Clone>(value: T) {
        match T::try_from_component(value.clone().into_component()) {
            Ok(back) => assert_eq!(back, value),
            Err(_) => panic!("round trip failed"),
        }
    }

    // Boundary values: the zero dimension, the unsaturated and fully
    // saturated sources, the extreme lightnesses.
    check(Color::new(
        ColorSource::new(Hue::from_degrees(180), ZeroToOne::new(0)),
        ZeroToOne::new(0),
        ZeroToOne::new(10_000),
    ));
    check(Color::new(
        ColorSource::new(Hue::from_degrees(-179), ZeroToOne::new(10_000)),
        ZeroToOne::new(10_000),
        ZeroToOne::new(0),
    ));
    check(Dimension::Px(Px(0)));
    check(Dimension::Lp(Lp(i32::MIN)));
    check(Px(i32::MAX));
    check(Lp(0));
    check(DimensionRange::from(Px(7)));
    check(ZeroToOne::new(0));
    check(ZeroToOne::new(10_000));
    check(EasingFunction::EaseInOut);
    check(VisualOrder::right_to_left());
    check(FocusableWidgets::OnlyTextual);
    check(ContainerLevel::Highest);
    check(FontWeight(700));
    check(FontStyle::Italic);
}

#[test]
fn mismatched_projection_returns_original_unchanged() {
    let component = Component::Dimension(Dimension::Px(Px(31)));
    match uistyles::animation::ZeroToOne::try_from_component(component) {
        Ok(_) => panic!("projection of the wrong kind succeeded"),
        Err(original) => match original {
            Component::Dimension(d) => assert_eq!(d, Dimension::Px(Px(31))),
            _ => panic!("projection changed the component"),
        },
    }
}

#[test]
fn font_family_projects_by_variant() {
    let family = FontFamily::Named(String::from("Inter"));
    let component = family.into_component();
    match FontFamily::try_from_component(component) {
        Ok(FontFamily::Named(n)) => assert_eq!(n, "Inter"),
        _ => panic!("family round trip failed"),
    }
}

struct FocusDef {
    name: ComponentName,
}

impl NamedComponent for FocusDef {
    fn name_spec(&self) -> ComponentName {
        self.name.clone()
    }

    fn name(&self) -> ComponentName {
        self.name.clone()
    }
}

impl ComponentDefinition for FocusDef {
    type ComponentType = FocusableWidgets;

    fn default_value_spec(&self, _context: &WidgetContext) -> FocusableWidgets {
        FocusableWidgets::All
    }

    fn default_value(&self, _context: &WidgetContext) -> FocusableWidgets {
        FocusableWidgets::All
    }
}

#[test]
fn dynamic_hit_of_redraw_only_kind_registers_redraw() {
    let mut styles = Styles::new();
    let def = FocusDef {
        name: name("focus", "policy"),
    };
    let mut context = WidgetContext::new();
    styles.insert_named(
        name("focus", "policy"),
        Dynamic {
            id: 11,
            value: Component::FocusableWidgets(FocusableWidgets::OnlyTextual),
        },
    );
    let got = styles.get(&def, &mut context);
    assert_eq!(got, FocusableWidgets::OnlyTextual);
    // Focus policy never moves layout, so the subscription redraws only.
    assert!(context.invalidated.is_empty());
    assert_eq!(context.redrawn, vec![11]);
}

#[test]
fn from_pairs_keeps_the_last_of_equal_names() {
    let styles = Styles::from_pairs(vec![
        (name("a", "x"), Component::Dimension(Dimension::Px(Px(1)))),
        (name("a", "y"), Component::Dimension(Dimension::Px(Px(5)))),
        (name("a", "x"), Component::Dimension(Dimension::Px(Px(2)))),
    ]);
    assert_eq!(styles.len(), 2);
    match styles.get_named(&name("a", "x")).expect("entry kept") {
        Value::Constant(Component::Dimension(d)) => assert_eq!(*d, Dimension::Px(Px(2))),
        _ => panic!("later pair did not win"),
    }
}

#[test]
fn into_entries_hands_out_every_entry() {
    let mut styles = Styles::new();
    styles.insert_named(name("a", "x"), Dimension::Px(Px(1)));
    styles.insert_named(name("a", "y"), Dimension::Px(Px(2)));
    let entries = styles.into_entries();
    assert_eq!(entries.len(), 2);
    let mut names: Vec<String> = entries
        .iter()
        .map(|e| e.name.name.text.clone())
        .collect();
    names.sort();
    assert_eq!(names, vec![String::from("x"), String::from("y")]);
}

#[test]
fn cloned_custom_component_still_downcasts() {
    let radii = CornerRadii::uniform(Dimension::Px(Px(6)));
    let component = Component::custom(radii);
    let copy = component.clone();
    match CornerRadii::try_from_component(copy) {
        Ok(back) => assert_eq!(back, radii),
        Err(_) => panic!("clone lost the shared payload"),
    }
    // The original handle still reads too.
    match CornerRadii::try_from_component(component) {
        Ok(back) => assert_eq!(back, radii),
        Err(_) => panic!("original handle lost the payload"),
    }
}

#[test]
fn component_names_compare_by_value() {
    assert_eq!(name("widget", "color"), name("widget", "color"));
    assert_ne!(name("widget", "color"), name("widget", "background"));
    assert_eq!(
        Name::new(String::from("widget")),
        Name::new(String::from("widget"))
    );
}

#[test]
fn named_font_weights_are_on_the_standard_scale() {
    assert_eq!(FontWeight::normal(), FontWeight(400));
    assert_eq!(FontWeight::bold(), FontWeight(700));
    assert_eq!(FontWeight::default(), FontWeight::normal());
    assert!(FontWeight::normal() < FontWeight::bold());
}
