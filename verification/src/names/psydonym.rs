//! The pseudonym: a name shown in place of a true name, which stays known.

use crate::names::personal_name::{
    personal_name_order, NameTrait, PersonalName, PersonalNameView,
};
use crate::order::then_order;
use core::cmp::Ordering;
use vstd::prelude::*;

verus! {

/// An alias together with the true name that it stands for.
#[derive(Debug, Eq, Ord, Hash)]
pub struct Psydonym {
    alias_for: PersonalName,
    name: PersonalName,
}

/// A pseudonym as plain text: the true name and the alias shown for it.
pub ghost struct PsydonymView {
    /// The true name.
    pub alias_for: PersonalNameView,
    /// The alias, which is what gets shown.
    pub name: PersonalNameView,
}

impl View for Psydonym {
    type V = PsydonymView;

    closed spec fn view(&self) -> PsydonymView {
        PsydonymView { alias_for: self.alias_for@, name: self.name@ }
    }
}

impl Psydonym {
    /// The pseudonym `name` for the true name `alias_for`. Both are copied;
    /// nothing ties one to the other.
    pub fn new(alias_for: &PersonalName, name: &PersonalName) -> (pseudonym: Self)
        ensures
            pseudonym@ == (PsydonymView { alias_for: alias_for@, name: name@ }),
    {
        Psydonym { alias_for: alias_for.clone(), name: name.clone() }
    }

    /// The true name that the pseudonym stands for.
    pub fn alias_for(&self) -> (true_name: &PersonalName)
        ensures
            true_name@ == self@.alias_for,
    {
        &self.alias_for
    }

    /// The alias: the name that is shown in place of the true name.
    pub fn alias(&self) -> (alias: &PersonalName)
        ensures
            alias@ == self@.name,
    {
        &self.name
    }

    /// The alias as it is displayed. There always is one.
    pub fn name(&self) -> (shown: Option<String>)
        ensures
            shown matches Some(text) && text@ == self@.name.display(),
    {
        Some(self.name.to_string())
    }

    /// The true name, as [`Self::alias_for`] gives it.
    pub fn true_name(&self) -> (true_name: &PersonalName)
        ensures
            true_name@ == self@.alias_for,
    {
        &self.alias_for
    }

    /// Renders the pseudonym for display: the alias, never the true name.
    pub fn to_string(&self) -> (text: String)
        ensures
            text@ == self@.name.display(),
    {
        self.name.to_string()
    }
}

impl Clone for Psydonym {
    fn clone(&self) -> (copy: Self)
        ensures
            copy@ == self@,
    {
        Psydonym { alias_for: self.alias_for.clone(), name: self.name.clone() }
    }
}

impl PartialEq for Psydonym {
    fn eq(&self, other: &Self) -> (equal: bool) {
        self.alias_for == other.alias_for && self.name == other.name
    }
}

impl vstd::std_specs::cmp::PartialEqSpecImpl for Psydonym {
    open spec fn obeys_eq_spec() -> bool {
        true
    }

    /// Two pseudonyms are equal when their true names are and their
    /// aliases are.
    open spec fn eq_spec(&self, other: &Self) -> bool {
        self@ == other@
    }
}

impl PartialOrd for Psydonym {
    fn partial_cmp(&self, other: &Self) -> (order: Option<Ordering>) {
        match self.alias_for.partial_cmp(&other.alias_for) {
            Some(Ordering::Less) => Some(Ordering::Less),
            Some(Ordering::Greater) => Some(Ordering::Greater),
            _ => self.name.partial_cmp(&other.name),
        }
    }
}

impl vstd::std_specs::cmp::PartialOrdSpecImpl for Psydonym {
    open spec fn obeys_partial_cmp_spec() -> bool {
        true
    }

    /// Pseudonyms are ordered by their true names, and those of one true
    /// name by their aliases.
    open spec fn partial_cmp_spec(&self, other: &Self) -> Option<Ordering> {
        Some(
            then_order(
                personal_name_order(self@.alias_for, other@.alias_for),
                personal_name_order(self@.name, other@.name),
            ),
        )
    }
}

impl NameTrait for Psydonym {
    /// A pseudonym shows its alias.
    open spec fn shown(&self) -> PersonalNameView {
        self@.name
    }

    fn full_name(&self) -> (text: String) {
        self.name.full_name()
    }

    fn given_name(&self) -> (given: Option<String>) {
        match self.name.given_name() {
            Some(given) => Some(given.to_string()),
            None => None,
        }
    }

    fn family_name(&self) -> (family: Option<String>) {
        match self.name.family_name() {
            Some(family) => Some(family.to_string()),
            None => None,
        }
    }
}

} // verus!
