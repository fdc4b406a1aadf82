//! Validated value types for personal names and honorific titles.
//!
//! Every type wraps text that has passed its checks, and every operation is
//! a pure function from values to values. Contracts are stated over the
//! views of the types: sequences of characters and plain records of them.

pub mod errors;
pub mod json;
pub mod laws;
pub mod names;
pub mod order;
pub mod text;
pub mod titles;

pub use errors::{Error, ProNounError};
pub use names::{
    FamilyName, GivenName, MiddleName, Name, NameTrait, PersonalName, PersonalNameView, Psydonym,
    PsydonymView,
};
pub use titles::{MidfixTitle, PostfixTitle, PrefixTitle, TitleView};
