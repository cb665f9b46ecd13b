//! The style registry: a mapping from qualified names to property values.
//!
//! A [`Styles`] maps each [`ComponentName`] to one stored [`Value`] of an
//! erased [`Component`]. Lookups resolve typed properties with a fallback
//! to the property's own default, registering a reactive subscription on a
//! successful typed hit and nothing otherwise. Two registries never share
//! mutable state: writing through one handle cannot change what another
//! handle returns.

use crate::component::{custom_with_classification, Component, ComponentDefinition, ComponentType,
    IntoComponentValue, NamedComponent, RequireInvalidation};
use crate::names::ComponentName;
use crate::reactive::{Dynamic, Value, WidgetContext};
use vstd::pervasive::VecAdditionalExecFns;
use vstd::prelude::*;

verus! {

/// One stored property: its qualified name and its value.
pub struct StyleEntry {
    /// The property's qualified name.
    pub name: ComponentName,
    /// The stored value.
    pub value: Value<Component>,
}

/// The mapping a sequence of entries stands for: later entries win.
pub open spec fn entries_map(s: Seq<StyleEntry>) -> Map<(Seq<char>, Seq<char>), Value<Component>>
    decreases s.len(),
{
    if s.len() == 0 {
        Map::empty()
    } else {
        entries_map(s.drop_last()).insert(s.last().name.key(), s.last().value)
    }
}

/// When no two entries claim the same name.
pub open spec fn unique_names(s: Seq<StyleEntry>) -> bool {
    forall|i: int, j: int|
        0 <= i < j < s.len() ==> (#[trigger] s[i].name.key()) != (#[trigger] s[j].name.key())
}

/// The mapping holds a name exactly when some entry carries it.
proof fn lemma_entries_map_contains(s: Seq<StyleEntry>, k: (Seq<char>, Seq<char>))
    ensures
        entries_map(s).contains_key(k) <==> exists|i: int|
            0 <= i < s.len() && (#[trigger] s[i].name.key()) == k,
    decreases s.len(),
{
    if s.len() > 0 {
        let prefix = s.drop_last();
        lemma_entries_map_contains(prefix, k);
        if s.last().name.key() == k {
            assert(s[s.len() - 1].name.key() == k);
        } else {
            if entries_map(s).contains_key(k) {
                let i = choose|i: int| 0 <= i < prefix.len() && (#[trigger] prefix[i].name.key())
                    == k;
                assert(s[i].name.key() == k);
            }
            if exists|i: int| 0 <= i < s.len() && (#[trigger] s[i].name.key()) == k {
                let i = choose|i: int| 0 <= i < s.len() && (#[trigger] s[i].name.key()) == k;
                assert(i < s.len() - 1);
                assert(prefix[i].name.key() == k);
            }
        }
    }
}

/// With unique names, the mapping sends each entry's name to its value.
proof fn lemma_entries_map_get(s: Seq<StyleEntry>, i: int)
    requires
        unique_names(s),
        0 <= i < s.len(),
    ensures
        entries_map(s).contains_key(s[i].name.key()),
        entries_map(s)[s[i].name.key()] == s[i].value,
    decreases s.len(),
{
    if i == s.len() - 1 {
    } else {
        let prefix = s.drop_last();
        assert(unique_names(prefix));
        assert(prefix[i] == s[i]);
        lemma_entries_map_get(prefix, i);
        assert(s[i].name.key() != s[s.len() - 1].name.key());
    }
}

/// Replacing the entry that carries a name updates the mapping at that
/// name alone.
proof fn lemma_entries_map_update(s: Seq<StyleEntry>, i: int, e: StyleEntry)
    requires
        unique_names(s),
        0 <= i < s.len(),
        e.name.key() == s[i].name.key(),
    ensures
        entries_map(s.update(i, e)) == entries_map(s).insert(e.name.key(), e.value),
    decreases s.len(),
{
    let k = e.name.key();
    if i == s.len() - 1 {
        assert(s.update(i, e).drop_last() =~= s.drop_last());
        assert(s.update(i, e).last() == e);
        assert(entries_map(s.drop_last()).insert(k, s[i].value).insert(k, e.value) =~= entries_map(
            s.drop_last(),
        ).insert(k, e.value));
    } else {
        let prefix = s.drop_last();
        assert(unique_names(prefix));
        assert(prefix[i] == s[i]);
        lemma_entries_map_update(prefix, i, e);
        let lastk = s.last().name.key();
        assert(s[i].name.key() != s[s.len() - 1].name.key());
        assert(s.update(i, e).drop_last() =~= prefix.update(i, e));
        assert(s.update(i, e).last() == s.last());
        assert(entries_map(prefix).insert(k, e.value).insert(lastk, s.last().value)
            =~= entries_map(prefix).insert(lastk, s.last().value).insert(k, e.value));
    }
}

/// Appending an entry updates the mapping at the entry's name alone.
proof fn lemma_entries_map_push(s: Seq<StyleEntry>, e: StyleEntry)
    ensures
        entries_map(s.push(e)) == entries_map(s).insert(e.name.key(), e.value),
{
    assert(s.push(e).drop_last() =~= s);
    assert(s.push(e).last() == e);
}

/// A collection of style components, organized by their qualified names.
pub struct Styles {
    /// The stored entries; no two carry the same name.
    pub entries: Vec<StyleEntry>,
}

impl View for Styles {
    type V = Map<(Seq<char>, Seq<char>), Value<Component>>;

    open spec fn view(&self) -> Map<(Seq<char>, Seq<char>), Value<Component>> {
        entries_map(self.entries@)
    }
}

impl Styles {
    /// The registry's invariant: each name is claimed by at most one
    /// entry.
    pub open spec fn wf(self) -> bool {
        unique_names(self.entries@)
    }

    /// Returns an empty collection.
    pub fn new() -> (r: Styles)
        ensures
            r@ == Map::<(Seq<char>, Seq<char>), Value<Component>>::empty(),
            r.wf(),
    {
        Styles { entries: Vec::new() }
    }

    /// Returns a collection with the capacity to hold up to `capacity`
    /// elements without reallocating.
    pub fn with_capacity(capacity: usize) -> (r: Styles)
        ensures
            r@ == Map::<(Seq<char>, Seq<char>), Value<Component>>::empty(),
            r.wf(),
    {
        Styles { entries: Vec::with_capacity(capacity) }
    }

    /// Returns how many properties the registry holds.
    pub fn len(&self) -> (r: usize)
        requires
            self.wf(),
        ensures
            r == self.entries@.len(),
    {
        self.entries.len()
    }

    /// Stores `value` under `name`, overwriting any previous value
    /// unconditionally.
    pub fn insert_value(&mut self, name: ComponentName, value: Value<Component>)
        requires
            old(self).wf(),
        ensures
            final(self).wf(),
            final(self)@ == old(self)@.insert(name.key(), value),
    {
        let mut i: usize = 0;
        while i < self.entries.len()
            invariant
                self == old(self),
                old(self).wf(),
                i <= self.entries@.len(),
                forall|j: int|
                    0 <= j < i ==> (#[trigger] self.entries@[j].name.key()) != name.key(),
            decreases self.entries@.len() - i,
        {
            if self.entries[i].name.matches(&name) {
                self.entries.set(i, StyleEntry { name, value });
                proof {
                    lemma_entries_map_update(
                        old(self).entries@,
                        i as int,
                        self.entries@[i as int],
                    );
                }
                return ;
            }
            i = i + 1;
        }
        self.entries.push(StyleEntry { name, value });
        proof {
            lemma_entries_map_push(old(self).entries@, self.entries@.last());
            assert(forall|j: int|
                0 <= j < old(self).entries@.len() ==> (#[trigger] self.entries@[j]) == old(
                    self,
                ).entries@[j]);
        }
    }

    /// Inserts a [`Component`] with a given name.
    pub fn insert_named<C: IntoComponentValue>(&mut self, name: ComponentName, component: C)
        requires
            old(self).wf(),
        ensures
            final(self).wf(),
            final(self)@ == old(self)@.insert(name.key(), component.into_component_value_spec()),
    {
        let value = component.into_component_value();
        self.insert_value(name, value);
    }

    /// Inserts a [`Component`] using the name provided.
    pub fn insert<Named: NamedComponent, C: IntoComponentValue>(
        &mut self,
        name: &Named,
        component: C,
    )
        requires
            old(self).wf(),
        ensures
            final(self).wf(),
            final(self)@ == old(self)@.insert(
                name.name_spec().key(),
                component.into_component_value_spec(),
            ),
    {
        let name = name.name();
        self.insert_named(name, component);
    }

    /// Adds a value for the name provided and returns self.
    pub fn with<C: ComponentDefinition, V: crate::reactive::IntoValue<C::ComponentType>>(
        self,
        name: &C,
        component: V,
    ) -> (r: Styles)
        requires
            self.wf(),
        ensures
            r.wf(),
            <C::ComponentType as ComponentType>::obeys_component_spec() ==> r@ == self@.insert(
                name.name_spec().key(),
                value_component_spec(component.into_value_spec()),
            ),
            !<C::ComponentType as ComponentType>::obeys_component_spec() ==> exists|
                stored: Value<Component>,
            |
                erases_to_custom(component.into_value_spec(), stored) && r@ == self@.insert(
                    name.name_spec().key(),
                    stored,
                ),
    {
        let mut styles = self;
        let value = component.into_value();
        let converted = value_into_component(value);
        let name = name.name();
        styles.insert_value(name, converted);
        styles
    }

    /// Returns the stored value for the given name, if any.
    pub fn get_named<Named: NamedComponent>(&self, component: &Named) -> (r: Option<
        &Value<Component>,
    >)
        requires
            self.wf(),
        ensures
            match r {
                Some(v) => self@.contains_key(component.name_spec().key()) && *v == self@[
                    component.name_spec().key()
                ],
                None => !self@.contains_key(component.name_spec().key()),
            },
    {
        let name = component.name();
        let mut i: usize = 0;
        while i < self.entries.len()
            invariant
                i <= self.entries@.len(),
                self.wf(),
                name == component.name_spec(),
                forall|j: int|
                    0 <= j < i ==> (#[trigger] self.entries@[j].name.key()) != name.key(),
            decreases self.entries@.len() - i,
        {
            if self.entries[i].name.matches(&name) {
                proof {
                    lemma_entries_map_get(self.entries@, i as int);
                }
                return Some(&self.entries[i].value);
            }
            i = i + 1;
        }
        proof {
            lemma_entries_map_contains(self.entries@, name.key());
        }
        None
    }

    /// Returns the component associated with the given name converted to
    /// the definition's type, or, on a missing name or a type mismatch,
    /// the default value provided by the definition.
    ///
    /// On a successful typed hit backed by a dynamic cell, the value's
    /// invalidation classification decides which subscription is
    /// registered against `context`; on a miss or a mismatch no
    /// subscription is registered at all, so a property inserted later
    /// does not re-resolve by itself.
    pub fn get<Named: ComponentDefinition>(
        &self,
        component: &Named,
        context: &mut WidgetContext,
    ) -> (r: Named::ComponentType)
        requires
            self.wf(),
        ensures
            old(context).invalidated@.is_prefix_of(final(context).invalidated@),
            old(context).redrawn@.is_prefix_of(final(context).redrawn@),
            ({
                let k = component.name_spec().key();
                &&& !self@.contains_key(k) ==> r == component.default_value_spec(old(context))
                    && final(context)@ == old(context)@
                &&& (self@.contains_key(k)
                    && <Named::ComponentType as ComponentType>::obeys_component_spec()) ==> {
                    let stored = self@[k];
                    match <Named::ComponentType as ComponentType>::from_component_spec(
                        stored.snapshot_spec(),
                    ) {
                        Some(v) => r == v && subscribed(
                            old(context)@,
                            final(context)@,
                            stored,
                            v.requires_invalidation_spec(),
                        ),
                        None => r == component.default_value_spec(old(context)) && final(context)@
                            == old(context)@,
                    }
                }
                &&& self@.contains_key(k) ==> ((r == component.default_value_spec(old(context))
                    && final(context)@ == old(context)@) || subscribed(
                    old(context)@,
                    final(context)@,
                    self@[k],
                    r.requires_invalidation_spec(),
                ))
            }),
    {
        match self.get_named(component) {
            Some(value) => {
                let snapshot = value.get();
                match <Named::ComponentType as ComponentType>::try_from_component(snapshot) {
                    Ok(converted) => {
                        if converted.requires_invalidation() {
                            value.invalidate_when_changed(context);
                        } else {
                            value.redraw_when_changed(context);
                        }
                        converted
                    },
                    Err(_) => component.default_value(context),
                }
            },
            None => component.default_value(context),
        }
    }

    /// Returns a collection holding `pairs` as constant values; on a
    /// repeated name the later pair wins.
    pub fn from_pairs(pairs: Vec<(ComponentName, Component)>) -> (r: Styles)
        ensures
            r.wf(),
            r@ == pairs_map(pairs@),
    {
        let mut styles = Styles::with_capacity(pairs.len());
        let ghost entry_of = |p: (ComponentName, Component)| StyleEntry {
            name: p.0,
            value: Value::Constant(p.1),
        };
        let mut i: usize = 0;
        while i < pairs.len()
            invariant
                i <= pairs@.len(),
                styles.wf(),
                styles@ == entries_map(pairs@.take(i as int).map_values(entry_of)),
                entry_of == (|p: (ComponentName, Component)| StyleEntry {
                    name: p.0,
                    value: Value::Constant(p.1),
                }),
            decreases pairs@.len() - i,
        {
            let name = pairs[i].0.clone();
            let component = pairs[i].1.clone();
            styles.insert_named(name, component);
            proof {
                let mapped = pairs@.take(i as int).map_values(entry_of);
                let mapped_next = pairs@.take(i as int + 1).map_values(entry_of);
                assert(mapped_next.drop_last() =~= mapped);
                assert(mapped_next.last() == entry_of(pairs@[i as int]));
            }
            i = i + 1;
        }
        proof {
            assert(pairs@.take(pairs@.len() as int) =~= pairs@);
        }
        styles
    }

    /// Hands the stored entries out for iteration, consuming the registry.
    pub fn into_entries(self) -> (r: Vec<StyleEntry>)
        ensures
            r@ == self.entries@,
            entries_map(r@) == self@,
    {
        self.entries
    }

    /// Inserts all components from `other`, overwriting any existing
    /// entries with the same [`ComponentName`].
    pub fn append(&mut self, other: Styles)
        requires
            old(self).wf(),
            other.wf(),
        ensures
            final(self).wf(),
            final(self)@ == old(self)@.union_prefer_right(other@),
    {
        let mut i: usize = 0;
        while i < other.entries.len()
            invariant
                i <= other.entries@.len(),
                other.wf(),
                self.wf(),
                self@ == old(self)@.union_prefer_right(entries_map(other.entries@.take(i as int))),
            decreases other.entries@.len() - i,
        {
            let entry = clone_entry(&other.entries[i]);
            let ghost before = self@;
            self.insert_value(entry.name, entry.value);
            proof {
                let taken = other.entries@.take(i as int);
                let e = other.entries@[i as int];
                assert(other.entries@.take(i as int + 1).drop_last() =~= taken);
                assert(other.entries@.take(i as int + 1).last() == e);
                assert(entries_map(other.entries@.take(i as int + 1)) == entries_map(
                    taken,
                ).insert(e.name.key(), e.value));
                assert(before.insert(e.name.key(), e.value) =~= old(self)@.union_prefer_right(
                    entries_map(other.entries@.take(i as int + 1)),
                ));
            }
            i = i + 1;
        }
        proof {
            assert(other.entries@.take(other.entries@.len() as int) =~= other.entries@);
        }
    }
}

/// The mapping a sequence of name and component pairs stands for, each
/// stored as a constant: later pairs win.
pub open spec fn pairs_map(s: Seq<(ComponentName, Component)>) -> Map<
    (Seq<char>, Seq<char>),
    Value<Component>,
> {
    entries_map(
        s.map_values(|p: (ComponentName, Component)| StyleEntry { name: p.0, value: Value::Constant(p.1) }),
    )
}

/// The spec-level image of converting a stored typed value into a stored
/// erased value.
pub open spec fn value_component_spec<T: ComponentType>(v: Value<T>) -> Value<Component> {
    match v {
        Value::Constant(t) => Value::Constant(t.to_component_spec()),
        Value::Dynamic(d) => Value::Dynamic(
            Dynamic { id: d.id, value: d.value.to_component_spec() },
        ),
    }
}

/// When an erased stored value came from the typed stored value through
/// the custom slot: the constant or dynamic shape and the cell identity
/// are kept, and the payload carries the typed value's invalidation
/// classification.
pub open spec fn erases_to_custom<T: ComponentType>(v: Value<T>, r: Value<Component>) -> bool {
    match (v, r) {
        (Value::Constant(t), Value::Constant(c)) => custom_with_classification(
            c,
            t.requires_invalidation_spec(),
        ),
        (Value::Dynamic(d), Value::Dynamic(rd)) => rd.id == d.id && custom_with_classification(
            rd.value,
            d.value.requires_invalidation_spec(),
        ),
        _ => false,
    }
}

/// Converts a typed stored value into an erased stored value, keeping a
/// dynamic cell's subscription identity.
pub fn value_into_component<T: ComponentType>(v: Value<T>) -> (r: Value<Component>)
    ensures
        T::obeys_component_spec() ==> r == value_component_spec(v),
        !T::obeys_component_spec() ==> erases_to_custom(v, r),
{
    match v {
        Value::Constant(t) => Value::Constant(t.into_component()),
        Value::Dynamic(d) => Value::Dynamic(Dynamic { id: d.id, value: d.value.into_component() }),
    }
}

/// How one resolution changes the context: nothing for a constant, and
/// exactly one subscription, chosen by the invalidation classification,
/// for a dynamic cell.
pub open spec fn subscribed(
    before: (Seq<u64>, Seq<u64>),
    after: (Seq<u64>, Seq<u64>),
    stored: Value<Component>,
    invalidate: bool,
) -> bool {
    match stored {
        Value::Constant(_) => after == before,
        Value::Dynamic(d) => if invalidate {
            after == (before.0.push(d.id), before.1)
        } else {
            after == (before.0, before.1.push(d.id))
        },
    }
}

/// Returns a copy of one stored entry, equal to the original.
fn clone_entry(entry: &StyleEntry) -> (r: StyleEntry)
    ensures
        r == *entry,
{
    let value = match &entry.value {
        Value::Constant(c) => Value::Constant(c.clone()),
        Value::Dynamic(d) => Value::Dynamic(Dynamic { id: d.id, value: d.value.clone() }),
    };
    StyleEntry { name: entry.name.clone(), value }
}

impl Clone for Styles {
    /// Cloning yields a registry with the same contents; afterwards the
    /// two registries share nothing that a write could touch.
    fn clone(&self) -> (res: Styles)
        ensures
            res@ == self@,
            res.entries@ == self.entries@,
    {
        let mut entries: Vec<StyleEntry> = Vec::new();
        let mut i: usize = 0;
        while i < self.entries.len()
            invariant
                i <= self.entries@.len(),
                entries@ =~= self.entries@.take(i as int),
            decreases self.entries@.len() - i,
        {
            entries.push(clone_entry(&self.entries[i]));
            proof {
                assert(entries@ =~= self.entries@.take(i as int + 1));
            }
            i = i + 1;
        }
        proof {
            assert(entries@ =~= self.entries@);
        }
        Styles { entries }
    }
}

impl Default for Styles {
    /// The default registry is empty.
    fn default() -> (r: Styles)
        ensures
            r@ == Map::<(Seq<char>, Seq<char>), Value<Component>>::empty(),
            r.wf(),
    {
        Styles::new()
    }
}


/// Copy-on-write isolation: after one registry is duplicated, writes
/// through either handle never show through the other. Stated over the
/// registry mapping: starting from any shared contents holding `v1` under
/// `n`, overwriting `n` with `v2` in one copy leaves the other copy still
/// answering `v1` for `n`.
pub proof fn lemma_clone_isolation(
    shared: Map<(Seq<char>, Seq<char>), Value<Component>>,
    n: (Seq<char>, Seq<char>),
    v1: Value<Component>,
    v2: Value<Component>,
)
    ensures
        ({
            let original = shared.insert(n, v1);
            let duplicate = original;
            let written = original.insert(n, v2);
            duplicate[n] == v1 && written[n] == v2
        }),
{
}

} // verus!
