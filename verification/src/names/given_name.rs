//! The given name: one token of text, never empty.

use crate::errors::ProNounError;
use crate::json::{json_of, json_text, Json};
use crate::order::{compare_text, text_order};
use crate::text::{contains_space, has_space};
use core::cmp::Ordering;
use vstd::prelude::*;
use vstd::string::StringExecFns;

verus! {

/// A given name: text that is not empty and holds no space.
#[derive(Debug, Eq, Ord, Hash)]
pub struct GivenName(String);

/// The rule that `text` breaks as a given name, the first of them, if any.
pub open spec fn given_name_fault(text: Seq<char>) -> Option<ProNounError> {
    if text.len() == 0 {
        Some(ProNounError::EmptyValue)
    } else if has_space(text) {
        Some(ProNounError::ContainsWhitespace)
    } else {
        None
    }
}

impl View for GivenName {
    type V = Seq<char>;

    /// The text of the name.
    closed spec fn view(&self) -> Seq<char> {
        self.0@
    }
}

impl GivenName {
    /// Holds of every given name: its text breaks no rule.
    #[verifier::type_invariant]
    pub closed spec fn wf(&self) -> bool {
        given_name_fault(self.0@) is None
    }

    /// What [`Self::new`] makes of `text`: the text of the name, or the
    /// rule that `text` breaks.
    pub open spec fn spec_new(text: Seq<char>) -> Result<Seq<char>, ProNounError> {
        match given_name_fault(text) {
            Some(fault) => Err(fault),
            None => Ok(text),
        }
    }

    /// Builds a given name from `name`, kept as it stands: nothing is
    /// trimmed and no letter changes case.
    pub fn new(name: &str) -> (r: Result<Self, ProNounError>)
        ensures
            match r {
                Ok(given) => Self::spec_new(name@) == Ok::<Seq<char>, ProNounError>(given@)
                    && given.wf(),
                Err(fault) => Self::spec_new(name@) == Err::<Seq<char>, ProNounError>(fault),
            },
    {
        if name.is_empty() {
            Err(ProNounError::EmptyValue)
        } else if contains_space(name) {
            Err(ProNounError::ContainsWhitespace)
        } else {
            Ok(GivenName(String::from_str(name)))
        }
    }

    /// Renders the name: its text, exactly.
    pub fn to_string(&self) -> (text: String)
        ensures
            text@ == self@,
            Self::spec_new(text@) == Ok::<Seq<char>, ProNounError>(self@),
    {
        proof {
            use_type_invariant(self);
        }
        self.0.clone()
    }

    /// Projects the name to a JSON string of its text.
    pub fn to_json(&self) -> (value: serde_json::Value)
        ensures
            json_of(value) == Json::Text(self@),
    {
        json_text(self.0.as_str())
    }

    /// The rules hold of the text of a well-formed name.
    pub proof fn lemma_wf(self)
        requires
            self.wf(),
        ensures
            given_name_fault(self@) is None,
    {
    }
}

impl Default for GivenName {
    /// The name to show where none is known: "Unknown".
    fn default() -> (given: Self)
        ensures
            given@ == "Unknown"@,
            given.wf(),
    {
        proof {
            reveal_strlit("Unknown");
            assert("Unknown"@.len() == 7);
            assert(!has_space("Unknown"@));
        }
        GivenName(String::from_str("Unknown"))
    }
}

impl Clone for GivenName {
    fn clone(&self) -> (copy: Self)
        ensures
            copy@ == self@,
    {
        proof {
            use_type_invariant(self);
        }
        GivenName(self.0.clone())
    }
}

impl PartialEq for GivenName {
    fn eq(&self, other: &Self) -> (equal: bool) {
        self.0 == other.0
    }
}

impl vstd::std_specs::cmp::PartialEqSpecImpl for GivenName {
    open spec fn obeys_eq_spec() -> bool {
        true
    }

    /// Two given names are equal when their texts are.
    open spec fn eq_spec(&self, other: &Self) -> bool {
        self@ == other@
    }
}

impl PartialOrd for GivenName {
    fn partial_cmp(&self, other: &Self) -> (order: Option<Ordering>) {
        Some(compare_text(self.0.as_str(), other.0.as_str()))
    }
}

impl vstd::std_specs::cmp::PartialOrdSpecImpl for GivenName {
    open spec fn obeys_partial_cmp_spec() -> bool {
        true
    }

    /// Given names are ordered as their texts are.
    open spec fn partial_cmp_spec(&self, other: &Self) -> Option<Ordering> {
        Some(text_order(self@, other@))
    }
}

impl TryFrom<&str> for GivenName {
    type Error = ProNounError;

    /// The same checks as [`GivenName::new`], with the same outcome.
    fn try_from(value: &str) -> (r: Result<Self, ProNounError>)
        ensures
            match r {
                Ok(given) => Self::spec_new(value@) == Ok::<Seq<char>, ProNounError>(given@)
                    && given.wf(),
                Err(fault) => Self::spec_new(value@) == Err::<Seq<char>, ProNounError>(fault),
            },
    {
        GivenName::new(value)
    }
}

impl vstd::std_specs::convert::TryFromSpecImpl<&str> for GivenName {
    /// A name is known by its text only, so no single value is named for
    /// the conversion: `try_from` states the outcome and the text.
    open spec fn obeys_try_from_spec() -> bool {
        false
    }

    open spec fn try_from_spec(v: &str) -> Result<Self, ProNounError> {
        match given_name_fault(v@) {
            Some(fault) => Err(fault),
            None => Ok(choose|given: GivenName| given@ == v@),
        }
    }
}

} // verus!
