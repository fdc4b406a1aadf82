//! The prefix title, set before a name.

use crate::errors::ProNounError;
use crate::order::{compare_text, optional_text_order, text_order, then_order};
use crate::titles::{title_fault, TitleView};
use core::cmp::Ordering;
use vstd::prelude::*;
use vstd::string::StringExecFns;

verus! {

/// A title set before a name, such as "Doctor". The name of the title is
/// never empty; its abbreviation may be any text.
#[derive(Debug, Eq, Ord, Hash)]
pub struct PrefixTitle {
    name: String,
    abbreviation: Option<String>,
}

impl View for PrefixTitle {
    type V = TitleView;

    closed spec fn view(&self) -> TitleView {
        TitleView {
            name: self.name@,
            abbreviation: match self.abbreviation {
                Some(text) => Some(text@),
                None => None,
            },
        }
    }
}

impl PrefixTitle {
    /// Holds of every prefix title: its name breaks no rule.
    #[verifier::type_invariant]
    pub closed spec fn wf(&self) -> bool {
        title_fault(self.name@) is None
    }

    /// What [`Self::new`] makes of `title`: the title of that name without
    /// an abbreviation, or the rule that `title` breaks.
    pub open spec fn spec_new(title: Seq<char>) -> Result<TitleView, ProNounError> {
        match title_fault(title) {
            Some(fault) => Err(fault),
            None => Ok(TitleView { name: title, abbreviation: None }),
        }
    }

    /// What [`Self::with_abbreviation`] makes of `title`: always the title
    /// with `abbreviation` set, whatever that text is.
    pub open spec fn spec_with_abbreviation(title: TitleView, abbreviation: Seq<char>) -> Result<
        TitleView,
        ProNounError,
    > {
        Ok(TitleView { abbreviation: Some(abbreviation), ..title })
    }

    /// Builds a prefix title named `title`, without an abbreviation.
    pub fn new(title: &str) -> (r: Result<Self, ProNounError>)
        ensures
            match r {
                Ok(made) => Self::spec_new(title@) == Ok::<TitleView, ProNounError>(made@)
                    && made.wf(),
                Err(fault) => Self::spec_new(title@) == Err::<TitleView, ProNounError>(fault),
            },
    {
        if title.is_empty() {
            Err(ProNounError::EmptyValue)
        } else {
            Ok(PrefixTitle { name: String::from_str(title), abbreviation: None })
        }
    }

    /// The title with `abbreviation` as its abbreviation, in place of any
    /// it had. Every text is taken, the empty one too: this never fails.
    pub fn with_abbreviation(self, abbreviation: &str) -> (r: Result<Self, ProNounError>)
        ensures
            r matches Ok(changed) && Self::spec_with_abbreviation(self@, abbreviation@) == Ok::<
                TitleView,
                ProNounError,
            >(changed@) && changed.wf(),
    {
        proof {
            use_type_invariant(&self);
        }
        Ok(PrefixTitle { name: self.name, abbreviation: Some(String::from_str(abbreviation)) })
    }

    /// The title written out.
    pub fn name(&self) -> (name: &str)
        ensures
            name@ == self@.name,
    {
        self.name.as_str()
    }

    /// The abbreviation, once one was given.
    pub fn abbreviation(&self) -> (abbreviation: Option<&str>)
        ensures
            match abbreviation {
                Some(text) => self@.abbreviation == Some(text@),
                None => self@.abbreviation is None,
            },
    {
        match &self.abbreviation {
            Some(text) => Some(text.as_str()),
            None => None,
        }
    }

    /// Renders the title: its name, without the abbreviation.
    pub fn to_string(&self) -> (text: String)
        ensures
            text@ == self@.name,
            Self::spec_new(text@) == Ok::<TitleView, ProNounError>(
                TitleView { name: self@.name, abbreviation: None },
            ),
    {
        proof {
            use_type_invariant(self);
        }
        self.name.clone()
    }

    /// The rule holds of the name of a well-formed title.
    pub proof fn lemma_wf(self)
        requires
            self.wf(),
        ensures
            title_fault(self@.name) is None,
    {
    }
}

impl Clone for PrefixTitle {
    fn clone(&self) -> (copy: Self)
        ensures
            copy@ == self@,
    {
        proof {
            use_type_invariant(self);
        }
        let abbreviation = match &self.abbreviation {
            Some(text) => Some(text.clone()),
            None => None,
        };
        PrefixTitle { name: self.name.clone(), abbreviation }
    }
}

impl PartialEq for PrefixTitle {
    fn eq(&self, other: &Self) -> (equal: bool) {
        let same_abbreviation = match (&self.abbreviation, &other.abbreviation) {
            (Some(mine), Some(theirs)) => *mine == *theirs,
            (None, None) => true,
            _ => false,
        };
        self.name == other.name && same_abbreviation
    }
}

impl vstd::std_specs::cmp::PartialEqSpecImpl for PrefixTitle {
    open spec fn obeys_eq_spec() -> bool {
        true
    }

    /// Two prefix titles are equal when their names and their
    /// abbreviations are.
    open spec fn eq_spec(&self, other: &Self) -> bool {
        self@ == other@
    }
}

impl PartialOrd for PrefixTitle {
    fn partial_cmp(&self, other: &Self) -> (order: Option<Ordering>) {
        match compare_text(self.name.as_str(), other.name.as_str()) {
            Ordering::Less => Some(Ordering::Less),
            Ordering::Greater => Some(Ordering::Greater),
            Ordering::Equal => match (&self.abbreviation, &other.abbreviation) {
                (None, None) => Some(Ordering::Equal),
                (None, Some(_)) => Some(Ordering::Less),
                (Some(_), None) => Some(Ordering::Greater),
                (Some(mine), Some(theirs)) => Some(compare_text(mine.as_str(), theirs.as_str())),
            },
        }
    }
}

impl vstd::std_specs::cmp::PartialOrdSpecImpl for PrefixTitle {
    open spec fn obeys_partial_cmp_spec() -> bool {
        true
    }

    /// Prefix titles are ordered by their names, and those of one
    /// name by their abbreviations, one without before any with.
    open spec fn partial_cmp_spec(&self, other: &Self) -> Option<Ordering> {
        Some(
            then_order(
                text_order(self@.name, other@.name),
                optional_text_order(self@.abbreviation, other@.abbreviation),
            ),
        )
    }
}

impl TryFrom<&str> for PrefixTitle {
    type Error = ProNounError;

    /// The same check as [`PrefixTitle::new`], with the same outcome.
    fn try_from(value: &str) -> (r: Result<Self, ProNounError>)
        ensures
            match r {
                Ok(made) => Self::spec_new(value@) == Ok::<TitleView, ProNounError>(made@)
                    && made.wf(),
                Err(fault) => Self::spec_new(value@) == Err::<TitleView, ProNounError>(fault),
            },
    {
        PrefixTitle::new(value)
    }
}

impl vstd::std_specs::convert::TryFromSpecImpl<&str> for PrefixTitle {
    /// A title is known by its texts only, so no single value is named for
    /// the conversion: `try_from` states the outcome and the texts.
    open spec fn obeys_try_from_spec() -> bool {
        false
    }

    open spec fn try_from_spec(v: &str) -> Result<Self, ProNounError> {
        match title_fault(v@) {
            Some(fault) => Err(fault),
            None => Ok(
                choose|made: PrefixTitle| made@ == (TitleView { name: v@, abbreviation: None }),
            ),
        }
    }
}

} // verus!
