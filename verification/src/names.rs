//! Identifiers for style properties.

use vstd::prelude::*;

verus! {

/// An owned string-like identifier for a group or leaf name.
#[derive(Debug)]
pub struct Name {
    /// The text of the identifier.
    pub text: String,
}

impl View for Name {
    type V = Seq<char>;

    open spec fn view(&self) -> Seq<char> {
        self.text@
    }
}

impl Name {
    /// Returns the identifier spelled `text`.
    pub fn new(text: String) -> (r: Name)
        ensures
            r == (Name { text }),
    {
        Name { text }
    }
}

impl Clone for Name {
    fn clone(&self) -> (res: Name)
        ensures
            res == *self,
    {
        Name { text: self.text.clone() }
    }
}

impl PartialEq for Name {
    fn eq(&self, other: &Name) -> (r: bool) {
        self.text == other.text
    }
}

impl vstd::std_specs::cmp::PartialEqSpecImpl for Name {
    open spec fn obeys_eq_spec() -> bool {
        true
    }

    open spec fn eq_spec(&self, other: &Name) -> bool {
        self@ == other@
    }
}

/// A fully-qualified style component name: a group and a name within it.
///
/// Two component names identify the same registry slot exactly when both
/// their parts are spelled the same.
#[derive(Debug)]
pub struct ComponentName {
    /// The group name.
    pub group: Name,
    /// The name of the component within the group.
    pub name: Name,
}

impl ComponentName {
    /// The pair of spellings that identifies the registry slot.
    pub open spec fn key(&self) -> (Seq<char>, Seq<char>) {
        (self.group@, self.name@)
    }

    /// Returns a new instance using `group` and `name`.
    pub fn new(group: Name, name: Name) -> (r: ComponentName)
        ensures
            r == (ComponentName { group, name }),
    {
        ComponentName { group, name }
    }

    /// Returns whether `self` and `other` identify the same registry slot.
    pub fn matches(&self, other: &ComponentName) -> (r: bool)
        ensures
            r == (self.key() == other.key()),
    {
        self.group.text == other.group.text && self.name.text == other.name.text
    }
}

impl Clone for ComponentName {
    fn clone(&self) -> (res: ComponentName)
        ensures
            res == *self,
    {
        ComponentName { group: self.group.clone(), name: self.name.clone() }
    }
}

impl PartialEq for ComponentName {
    fn eq(&self, other: &ComponentName) -> (r: bool) {
        self.group.text == other.group.text && self.name.text == other.name.text
    }
}

impl vstd::std_specs::cmp::PartialEqSpecImpl for ComponentName {
    open spec fn obeys_eq_spec() -> bool {
        true
    }

    open spec fn eq_spec(&self, other: &ComponentName) -> bool {
        self.key() == other.key()
    }
}

} // verus!
