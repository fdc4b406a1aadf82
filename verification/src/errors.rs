//! The errors of the library: which rule a text broke, and the message that
//! an aggregate reports for it.

use vstd::prelude::*;
use vstd::string::StringExecFns;

verus! {

/// The rule that a rejected text broke.
#[derive(Debug, Clone, Copy, PartialEq, Eq, Hash, Structural)]
pub enum ProNounError {
    /// The text was empty where a value is required.
    EmptyValue,
    /// The text held a space where a single token is required.
    ContainsWhitespace,
}

impl ProNounError {
    /// The name of the variant, as `Debug` prints it.
    pub open spec fn variant_name(self) -> Seq<char> {
        match self {
            ProNounError::EmptyValue => "EmptyValue"@,
            ProNounError::ContainsWhitespace => "ContainsWhitespace"@,
        }
    }

    /// What the rule forbids, worded to follow the name of what was checked.
    pub open spec fn complaint(self) -> Seq<char> {
        match self {
            ProNounError::EmptyValue => " cannot be empty"@,
            ProNounError::ContainsWhitespace => " cannot contain spaces"@,
        }
    }

    /// The message for a breach of this rule by the thing called `subject`.
    pub open spec fn message_for(self, subject: Seq<char>) -> Seq<char> {
        subject + self.complaint()
    }

    /// Words the breach for a reader: `subject`, then what the rule forbids.
    pub fn message(&self, subject: &str) -> (text: String)
        ensures
            text@ == self.message_for(subject@),
    {
        let mut text = String::from_str(subject);
        match self {
            ProNounError::EmptyValue => text.append(" cannot be empty"),
            ProNounError::ContainsWhitespace => text.append(" cannot contain spaces"),
        }
        text
    }
}

/// What an operation on an aggregate reports when it fails.
#[derive(Debug)]
pub enum Error {
    /// A failure from below the library, kept as the message it rendered to.
    DynError(String),
    /// A rejected value, as a message for a reader.
    ProNounError(String),
}

impl Error {
    /// The message that the error carries.
    pub open spec fn message(self) -> Seq<char> {
        match self {
            Error::DynError(text) => text@,
            Error::ProNounError(text) => text@,
        }
    }

    /// Renders the error: its message, whichever variant holds it.
    pub fn to_string(&self) -> (text: String)
        ensures
            text@ == self.message(),
    {
        match self {
            Error::DynError(message) => message.clone(),
            Error::ProNounError(message) => message.clone(),
        }
    }
}

impl From<ProNounError> for Error {
    /// Reports a broken rule by the name of its variant.
    fn from(error: ProNounError) -> (r: Self)
        ensures
            r is ProNounError,
            r.message() == error.variant_name(),
    {
        match error {
            ProNounError::EmptyValue => Error::ProNounError(String::from_str("EmptyValue")),
            ProNounError::ContainsWhitespace => Error::ProNounError(
                String::from_str("ContainsWhitespace"),
            ),
        }
    }
}

impl vstd::std_specs::convert::FromSpecImpl<ProNounError> for Error {
    /// An error is known by its variant and message only, so no single value
    /// is named for the conversion: `from` states both.
    open spec fn obeys_from_spec() -> bool {
        false
    }

    open spec fn from_spec(v: ProNounError) -> Self {
        Error::ProNounError(choose|text: String| text@ == v.variant_name())
    }
}

impl From<&str> for Error {
    /// Reports a rejected value with `error` as its message.
    fn from(error: &str) -> (r: Self)
        ensures
            r is ProNounError,
            r.message() == error@,
    {
        Error::ProNounError(String::from_str(error))
    }
}

impl vstd::std_specs::convert::FromSpecImpl<&str> for Error {
    /// As for a broken rule: `from` states the variant and the message.
    open spec fn obeys_from_spec() -> bool {
        false
    }

    open spec fn from_spec(v: &str) -> Self {
        Error::ProNounError(choose|text: String| text@ == v@)
    }
}

} // verus!
