//! The family name: one token of text, never empty.

use crate::errors::ProNounError;
use crate::order::{compare_text, text_order};
use crate::text::{contains_space, has_space};
use core::cmp::Ordering;
use vstd::prelude::*;
use vstd::string::StringExecFns;

verus! {

/// A family name: text that is not empty and holds no space.
#[derive(Debug, Eq, Ord, Hash)]
pub struct FamilyName(String);

/// The rule that `text` breaks as a family name, the first of them, if any.
pub open spec fn family_name_fault(text: Seq<char>) -> Option<ProNounError> {
    if text.len() == 0 {
        Some(ProNounError::EmptyValue)
    } else if has_space(text) {
        Some(ProNounError::ContainsWhitespace)
    } else {
        None
    }
}

impl View for FamilyName {
    type V = Seq<char>;

    /// The text of the name.
    closed spec fn view(&self) -> Seq<char> {
        self.0@
    }
}

impl FamilyName {
    /// Holds of every family name: its text breaks no rule.
    #[verifier::type_invariant]
    pub closed spec fn wf(&self) -> bool {
        family_name_fault(self.0@) is None
    }

    /// What [`Self::new`] makes of `text`: the text of the name, or the
    /// rule that `text` breaks.
    pub open spec fn spec_new(text: Seq<char>) -> Result<Seq<char>, ProNounError> {
        match family_name_fault(text) {
            Some(fault) => Err(fault),
            None => Ok(text),
        }
    }

    /// Builds a family name from `name`, kept as it stands.
    pub fn new(name: &str) -> (r: Result<Self, ProNounError>)
        ensures
            match r {
                Ok(family) => Self::spec_new(name@) == Ok::<Seq<char>, ProNounError>(family@)
                    && family.wf(),
                Err(fault) => Self::spec_new(name@) == Err::<Seq<char>, ProNounError>(fault),
            },
    {
        if name.is_empty() {
            Err(ProNounError::EmptyValue)
        } else if contains_space(name) {
            Err(ProNounError::ContainsWhitespace)
        } else {
            Ok(FamilyName(String::from_str(name)))
        }
    }

    /// Renders the name: its text, exactly.
    pub fn to_string(&self) -> (text: String)
        ensures
            text@ == self@,
            Self::spec_new(text@) == Ok::<Seq<char>, ProNounError>(self@),
    {
        proof {
            use_type_invariant(self);
        }
        self.0.clone()
    }

    /// The rules hold of the text of a well-formed name.
    pub proof fn lemma_wf(self)
        requires
            self.wf(),
        ensures
            family_name_fault(self@) is None,
    {
    }
}

impl Clone for FamilyName {
    fn clone(&self) -> (copy: Self)
        ensures
            copy@ == self@,
    {
        proof {
            use_type_invariant(self);
        }
        FamilyName(self.0.clone())
    }
}

impl PartialEq for FamilyName {
    fn eq(&self, other: &Self) -> (equal: bool) {
        self.0 == other.0
    }
}

impl vstd::std_specs::cmp::PartialEqSpecImpl for FamilyName {
    open spec fn obeys_eq_spec() -> bool {
        true
    }

    /// Two family names are equal when their texts are.
    open spec fn eq_spec(&self, other: &Self) -> bool {
        self@ == other@
    }
}

impl PartialOrd for FamilyName {
    fn partial_cmp(&self, other: &Self) -> (order: Option<Ordering>) {
        Some(compare_text(self.0.as_str(), other.0.as_str()))
    }
}

impl vstd::std_specs::cmp::PartialOrdSpecImpl for FamilyName {
    open spec fn obeys_partial_cmp_spec() -> bool {
        true
    }

    /// Family names are ordered as their texts are.
    open spec fn partial_cmp_spec(&self, other: &Self) -> Option<Ordering> {
        Some(text_order(self@, other@))
    }
}

impl TryFrom<&str> for FamilyName {
    type Error = ProNounError;

    /// The same checks as [`FamilyName::new`], with the same outcome.
    fn try_from(value: &str) -> (r: Result<Self, ProNounError>)
        ensures
            match r {
                Ok(family) => Self::spec_new(value@) == Ok::<Seq<char>, ProNounError>(family@)
                    && family.wf(),
                Err(fault) => Self::spec_new(value@) == Err::<Seq<char>, ProNounError>(fault),
            },
    {
        FamilyName::new(value)
    }
}

impl vstd::std_specs::convert::TryFromSpecImpl<&str> for FamilyName {
    /// A name is known by its text only, so no single value is named for
    /// the conversion: `try_from` states the outcome and the text.
    open spec fn obeys_try_from_spec() -> bool {
        false
    }

    open spec fn try_from_spec(v: &str) -> Result<Self, ProNounError> {
        match family_name_fault(v@) {
            Some(fault) => Err(fault),
            None => Ok(choose|family: FamilyName| family@ == v@),
        }
    }
}

} // verus!
