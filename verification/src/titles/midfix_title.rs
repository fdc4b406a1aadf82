//! The midfix title, set within a name.

use crate::errors::ProNounError;
use crate::order::{compare_text, text_order};
use crate::titles::title_fault;
use core::cmp::Ordering;
use vstd::prelude::*;
use vstd::string::StringExecFns;

verus! {

/// A title set within a name. Its text is never empty.
#[derive(Debug, Eq, Ord, Hash)]
pub struct MidfixTitle {
    title: String,
}

impl View for MidfixTitle {
    type V = Seq<char>;

    /// The text of the title.
    closed spec fn view(&self) -> Seq<char> {
        self.title@
    }
}

impl MidfixTitle {
    /// Holds of every midfix title: its text breaks no rule.
    #[verifier::type_invariant]
    pub closed spec fn wf(&self) -> bool {
        title_fault(self.title@) is None
    }

    /// What [`Self::new`] makes of `title`: the text of the title, or the
    /// rule that `title` breaks.
    pub open spec fn spec_new(title: Seq<char>) -> Result<Seq<char>, ProNounError> {
        match title_fault(title) {
            Some(fault) => Err(fault),
            None => Ok(title),
        }
    }

    /// Builds a midfix title from `title`, kept as it stands.
    pub fn new(title: &str) -> (r: Result<Self, ProNounError>)
        ensures
            match r {
                Ok(made) => Self::spec_new(title@) == Ok::<Seq<char>, ProNounError>(made@)
                    && made.wf(),
                Err(fault) => Self::spec_new(title@) == Err::<Seq<char>, ProNounError>(fault),
            },
    {
        if title.is_empty() {
            Err(ProNounError::EmptyValue)
        } else {
            Ok(MidfixTitle { title: String::from_str(title) })
        }
    }

    /// The title written out.
    pub fn title(&self) -> (title: &str)
        ensures
            title@ == self@,
    {
        self.title.as_str()
    }

    /// Renders the title: its text, exactly.
    pub fn to_string(&self) -> (text: String)
        ensures
            text@ == self@,
            Self::spec_new(text@) == Ok::<Seq<char>, ProNounError>(self@),
    {
        proof {
            use_type_invariant(self);
        }
        self.title.clone()
    }

    /// The rule holds of the text of a well-formed title.
    pub proof fn lemma_wf(self)
        requires
            self.wf(),
        ensures
            title_fault(self@) is None,
    {
    }
}

impl Clone for MidfixTitle {
    fn clone(&self) -> (copy: Self)
        ensures
            copy@ == self@,
    {
        proof {
            use_type_invariant(self);
        }
        MidfixTitle { title: self.title.clone() }
    }
}

impl PartialEq for MidfixTitle {
    fn eq(&self, other: &Self) -> (equal: bool) {
        self.title == other.title
    }
}

impl vstd::std_specs::cmp::PartialEqSpecImpl for MidfixTitle {
    open spec fn obeys_eq_spec() -> bool {
        true
    }

    /// Two midfix titles are equal when their texts are.
    open spec fn eq_spec(&self, other: &Self) -> bool {
        self@ == other@
    }
}

impl PartialOrd for MidfixTitle {
    fn partial_cmp(&self, other: &Self) -> (order: Option<Ordering>) {
        Some(compare_text(self.title.as_str(), other.title.as_str()))
    }
}

impl vstd::std_specs::cmp::PartialOrdSpecImpl for MidfixTitle {
    open spec fn obeys_partial_cmp_spec() -> bool {
        true
    }

    /// Midfix titles are ordered as their texts are.
    open spec fn partial_cmp_spec(&self, other: &Self) -> Option<Ordering> {
        Some(text_order(self@, other@))
    }
}

impl TryFrom<&str> for MidfixTitle {
    type Error = ProNounError;

    /// The same check as [`MidfixTitle::new`], with the same outcome.
    fn try_from(value: &str) -> (r: Result<Self, ProNounError>)
        ensures
            match r {
                Ok(made) => Self::spec_new(value@) == Ok::<Seq<char>, ProNounError>(made@)
                    && made.wf(),
                Err(fault) => Self::spec_new(value@) == Err::<Seq<char>, ProNounError>(fault),
            },
    {
        MidfixTitle::new(value)
    }
}

impl vstd::std_specs::convert::TryFromSpecImpl<&str> for MidfixTitle {
    /// A title is known by its text only, so no single value is named for
    /// the conversion: `try_from` states the outcome and the text.
    open spec fn obeys_try_from_spec() -> bool {
        false
    }

    open spec fn try_from_spec(v: &str) -> Result<Self, ProNounError> {
        match title_fault(v@) {
            Some(fault) => Err(fault),
            None => Ok(choose|made: MidfixTitle| made@ == v@),
        }
    }
}

} // verus!
