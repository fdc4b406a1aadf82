//! Titles: honorifics and qualifications set before, within or after a name.

pub mod midfix_title;
pub mod postfix_title;
pub mod prefix_title;

pub use midfix_title::MidfixTitle;
pub use postfix_title::PostfixTitle;
pub use prefix_title::PrefixTitle;

use crate::errors::ProNounError;
use vstd::prelude::*;

verus! {

/// A title with its abbreviation as plain text: what its contracts speak of.
pub ghost struct TitleView {
    /// The title written out.
    pub name: Seq<char>,
    /// The abbreviation, once one was given.
    pub abbreviation: Option<Seq<char>>,
}

/// The rule that `text` breaks as the name of a title, if any.
pub open spec fn title_fault(text: Seq<char>) -> Option<ProNounError> {
    if text.len() == 0 {
        Some(ProNounError::EmptyValue)
    } else {
        None
    }
}

} // verus!
