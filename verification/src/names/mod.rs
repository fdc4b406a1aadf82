//! Names: the single components and the aggregates built from them.

pub mod family_name;
pub mod given_name;
pub mod middle_name;
pub mod personal_name;
pub mod psydonym;

pub use family_name::{family_name_fault, FamilyName};
pub use given_name::{given_name_fault, GivenName};
pub use middle_name::{middle_name_fault, MiddleName};
pub use personal_name::{
    initial, middle_name_texts, optional_json, optional_word, personal_name_order, Name,
    NameTrait, PersonalName, PersonalNameView,
};
pub use psydonym::{Psydonym, PsydonymView};
