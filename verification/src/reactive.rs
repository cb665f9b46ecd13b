//! The boundary to the reactive value engine.
//!
//! The registry stores each property as a [`Value`]: either a constant or a
//! dynamic cell owned by the external reactive engine. Here a dynamic cell
//! is modeled by its subscription identity together with the snapshot the
//! registry reads; subscribing registers that identity with the resolution
//! context. A [`WidgetContext`] records the subscriptions one resolution
//! pass registers: which cells should invalidate (relayout) and which
//! should redraw the widget when they change.

use vstd::prelude::*;

verus! {

/// A reactive cell holding values of type `T`: its subscription identity
/// and the snapshot read at resolution time.
#[derive(Debug)]
pub struct Dynamic<T> {
    /// The identity that subscriptions against this cell register.
    pub id: u64,
    /// The value the cell held when the registry read it.
    pub value: T,
}

/// A property value: either a constant or a dynamic cell.
#[derive(Debug)]
pub enum Value<T> {
    /// A value that will not change.
    Constant(T),
    /// A value backed by a reactive cell.
    Dynamic(Dynamic<T>),
}

impl<T> Value<T> {
    /// The snapshot a read of the value yields.
    pub open spec fn snapshot_spec(self) -> T {
        match self {
            Value::Constant(v) => v,
            Value::Dynamic(d) => d.value,
        }
    }

    /// Registers an invalidation (relayout) subscription for a dynamic
    /// value; a constant registers nothing.
    pub fn invalidate_when_changed(&self, context: &mut WidgetContext)
        ensures
            match self {
                Value::Constant(_) => final(context)@ == old(context)@,
                Value::Dynamic(d) => final(context)@ == (
                    old(context).invalidated@.push(d.id),
                    old(context).redrawn@,
                ),
            },
    {
        match self {
            Value::Constant(_) => (),
            Value::Dynamic(d) => context.invalidate_when_changed(d.id),
        }
    }

    /// Registers a redraw subscription for a dynamic value; a constant
    /// registers nothing.
    pub fn redraw_when_changed(&self, context: &mut WidgetContext)
        ensures
            match self {
                Value::Constant(_) => final(context)@ == old(context)@,
                Value::Dynamic(d) => final(context)@ == (
                    old(context).invalidated@,
                    old(context).redrawn@.push(d.id),
                ),
            },
    {
        match self {
            Value::Constant(_) => (),
            Value::Dynamic(d) => context.redraw_when_changed(d.id),
        }
    }
}

/// A value that can be converted into a [`Value`] of `T`.
pub trait IntoValue<T>: Sized {
    /// The value the conversion yields.
    spec fn into_value_spec(self) -> Value<T>;

    /// Returns this value as a `Value`.
    fn into_value(self) -> (r: Value<T>)
        ensures
            r == self.into_value_spec(),
    ;
}

impl<T> IntoValue<T> for T {
    open spec fn into_value_spec(self) -> Value<T> {
        Value::Constant(self)
    }

    fn into_value(self) -> (r: Value<T>) {
        Value::Constant(self)
    }
}

impl<T> IntoValue<T> for Value<T> {
    open spec fn into_value_spec(self) -> Value<T> {
        self
    }

    fn into_value(self) -> (r: Value<T>) {
        self
    }
}

impl<T> IntoValue<T> for Dynamic<T> {
    open spec fn into_value_spec(self) -> Value<T> {
        Value::Dynamic(self)
    }

    fn into_value(self) -> (r: Value<T>) {
        Value::Dynamic(self)
    }
}

/// The subscriptions registered during one resolution pass.
///
/// The real toolkit hands the registry a live widget context; this records
/// exactly the observable effect the registry has on it: the ordered lists
/// of cell identities registered for invalidation and for redraw.
#[derive(Debug)]
pub struct WidgetContext {
    /// The cells whose changes must invalidate (relayout) the widget.
    pub invalidated: Vec<u64>,
    /// The cells whose changes must redraw the widget.
    pub redrawn: Vec<u64>,
}

impl View for WidgetContext {
    type V = (Seq<u64>, Seq<u64>);

    open spec fn view(&self) -> (Seq<u64>, Seq<u64>) {
        (self.invalidated@, self.redrawn@)
    }
}

impl WidgetContext {
    /// Returns a context with no subscriptions registered.
    pub fn new() -> (r: WidgetContext)
        ensures
            r@ == (Seq::<u64>::empty(), Seq::<u64>::empty()),
    {
        WidgetContext { invalidated: Vec::new(), redrawn: Vec::new() }
    }

    /// Registers `id` for invalidation when it changes.
    pub fn invalidate_when_changed(&mut self, id: u64)
        ensures
            final(self)@ == (old(self).invalidated@.push(id), old(self).redrawn@),
    {
        self.invalidated.push(id);
    }

    /// Registers `id` for redraw when it changes.
    pub fn redraw_when_changed(&mut self, id: u64)
        ensures
            final(self)@ == (old(self).invalidated@, old(self).redrawn@.push(id)),
    {
        self.redrawn.push(id);
    }
}

impl Default for WidgetContext {
    /// The default context has no subscriptions registered.
    fn default() -> (r: WidgetContext)
        ensures
            r@ == (Seq::<u64>::empty(), Seq::<u64>::empty()),
    {
        WidgetContext::new()
    }
}

} // verus!
