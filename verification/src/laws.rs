//! What holds of the components for every text: which texts are accepted,
//! which are rejected and why, and that a component survives the trip
//! through its own rendering; and of every value, that it stands equal to
//! another in the order exactly when the two are equal.
//!
//! Each law speaks of `spec_new`, which the contract of every `new` and
//! `try_from` equates with its outcome, of the view, which every
//! `to_string` renders, and of `eq_spec` and `partial_cmp_spec`, which are
//! what `==` and `<` compute.

use crate::errors::ProNounError;
use crate::names::family_name::FamilyName;
use crate::names::given_name::GivenName;
use crate::names::middle_name::MiddleName;
use crate::names::personal_name::{personal_name_order, PersonalName, PersonalNameView};
use crate::names::psydonym::Psydonym;
use crate::order::{
    lemma_optional_text_order_equal, lemma_text_order_equal, lemma_texts_order_equal,
};
use crate::titles::midfix_title::MidfixTitle;
use crate::titles::postfix_title::PostfixTitle;
use crate::titles::prefix_title::PrefixTitle;
use crate::titles::TitleView;
use core::cmp::Ordering;
use vstd::prelude::*;
use vstd::std_specs::cmp::{PartialEqSpec, PartialOrdSpec};

verus! {

/// Every text that is not empty and holds no space is a given name, and the
/// name made of it has that very text, which is what it renders to.
pub proof fn given_name_accepts_every_token(text: Seq<char>)
    requires
        text.len() > 0,
        !text.contains(' '),
    ensures
        GivenName::spec_new(text) == Ok::<Seq<char>, ProNounError>(text),
{
}

/// A text that holds a space is neither a given name nor a family name:
/// both are refused for the whitespace.
pub proof fn single_token_names_refuse_spaces(text: Seq<char>)
    requires
        text.contains(' '),
    ensures
        GivenName::spec_new(text) == Err::<Seq<char>, ProNounError>(
            ProNounError::ContainsWhitespace,
        ),
        FamilyName::spec_new(text) == Err::<Seq<char>, ProNounError>(
            ProNounError::ContainsWhitespace,
        ),
{
}

/// The empty text is no component of any kind: every constructor refuses it
/// as an empty value.
pub proof fn every_component_refuses_the_empty_text()
    ensures
        GivenName::spec_new(Seq::empty()) == Err::<Seq<char>, ProNounError>(
            ProNounError::EmptyValue,
        ),
        MiddleName::spec_new(Seq::empty()) == Err::<Seq<char>, ProNounError>(
            ProNounError::EmptyValue,
        ),
        FamilyName::spec_new(Seq::empty()) == Err::<Seq<char>, ProNounError>(
            ProNounError::EmptyValue,
        ),
        PrefixTitle::spec_new(Seq::empty()) == Err::<TitleView, ProNounError>(
            ProNounError::EmptyValue,
        ),
        MidfixTitle::spec_new(Seq::empty()) == Err::<Seq<char>, ProNounError>(
            ProNounError::EmptyValue,
        ),
        PostfixTitle::spec_new(Seq::empty()) == Err::<TitleView, ProNounError>(
            ProNounError::EmptyValue,
        ),
{
}

/// A given name built from the rendering of a given name equals it.
pub proof fn given_name_round_trip(name: GivenName)
    requires
        name.wf(),
    ensures
        GivenName::spec_new(name@) == Ok::<Seq<char>, ProNounError>(name@),
{
    name.lemma_wf();
}

/// A middle name built from the rendering of a middle name equals it.
pub proof fn middle_name_round_trip(name: MiddleName)
    requires
        name.wf(),
    ensures
        MiddleName::spec_new(name@) == Ok::<Seq<char>, ProNounError>(name@),
{
    name.lemma_wf();
}

/// A family name built from the rendering of a family name equals it.
pub proof fn family_name_round_trip(name: FamilyName)
    requires
        name.wf(),
    ensures
        FamilyName::spec_new(name@) == Ok::<Seq<char>, ProNounError>(name@),
{
    name.lemma_wf();
}

/// A midfix title built from the rendering of a midfix title equals it.
pub proof fn midfix_title_round_trip(title: MidfixTitle)
    requires
        title.wf(),
    ensures
        MidfixTitle::spec_new(title@) == Ok::<Seq<char>, ProNounError>(title@),
{
    title.lemma_wf();
}

/// A prefix title built from the rendering of a prefix title has its name
/// and no abbreviation: it equals the title where that had none.
pub proof fn prefix_title_round_trip(title: PrefixTitle)
    requires
        title.wf(),
    ensures
        PrefixTitle::spec_new(title@.name) == Ok::<TitleView, ProNounError>(
            TitleView { name: title@.name, abbreviation: None },
        ),
        title@.abbreviation is None ==> PrefixTitle::spec_new(title@.name) == Ok::<
            TitleView,
            ProNounError,
        >(title@),
{
    title.lemma_wf();
}

/// A postfix title built from the rendering of a postfix title has its name
/// and no abbreviation: it equals the title where that had none.
pub proof fn postfix_title_round_trip(title: PostfixTitle)
    requires
        title.wf(),
    ensures
        PostfixTitle::spec_new(title@.name) == Ok::<TitleView, ProNounError>(
            TitleView { name: title@.name, abbreviation: None },
        ),
        title@.abbreviation is None ==> PostfixTitle::spec_new(title@.name) == Ok::<
            TitleView,
            ProNounError,
        >(title@),
{
    title.lemma_wf();
}

/// Two given names stand equal in the order exactly when they are equal.
pub proof fn given_name_order_agrees_with_equality(a: GivenName, b: GivenName)
    ensures
        a.partial_cmp_spec(&b) == Some(Ordering::Equal) <==> a.eq_spec(&b),
{
    lemma_text_order_equal(a@, b@);
}

/// Two middle names stand equal in the order exactly when they are equal.
pub proof fn middle_name_order_agrees_with_equality(a: MiddleName, b: MiddleName)
    ensures
        a.partial_cmp_spec(&b) == Some(Ordering::Equal) <==> a.eq_spec(&b),
{
    lemma_text_order_equal(a@, b@);
}

/// Two family names stand equal in the order exactly when they are equal.
pub proof fn family_name_order_agrees_with_equality(a: FamilyName, b: FamilyName)
    ensures
        a.partial_cmp_spec(&b) == Some(Ordering::Equal) <==> a.eq_spec(&b),
{
    lemma_text_order_equal(a@, b@);
}

/// Two midfix titles stand equal in the order exactly when they are equal.
pub proof fn midfix_title_order_agrees_with_equality(a: MidfixTitle, b: MidfixTitle)
    ensures
        a.partial_cmp_spec(&b) == Some(Ordering::Equal) <==> a.eq_spec(&b),
{
    lemma_text_order_equal(a@, b@);
}

/// Two prefix titles stand equal in the order exactly when they are equal.
pub proof fn prefix_title_order_agrees_with_equality(a: PrefixTitle, b: PrefixTitle)
    ensures
        a.partial_cmp_spec(&b) == Some(Ordering::Equal) <==> a.eq_spec(&b),
{
    lemma_text_order_equal(a@.name, b@.name);
    lemma_optional_text_order_equal(a@.abbreviation, b@.abbreviation);
}

/// Two postfix titles stand equal in the order exactly when they are equal.
pub proof fn postfix_title_order_agrees_with_equality(a: PostfixTitle, b: PostfixTitle)
    ensures
        a.partial_cmp_spec(&b) == Some(Ordering::Equal) <==> a.eq_spec(&b),
{
    lemma_text_order_equal(a@.name, b@.name);
    lemma_optional_text_order_equal(a@.abbreviation, b@.abbreviation);
}

/// Two personal names, as plain text, stand equal in the order exactly
/// when they agree in every part.
pub proof fn personal_name_order_equal(a: PersonalNameView, b: PersonalNameView)
    ensures
        personal_name_order(a, b) is Equal <==> a == b,
{
    lemma_optional_text_order_equal(a.given_name, b.given_name);
    lemma_texts_order_equal(a.middle_names, b.middle_names);
    lemma_optional_text_order_equal(a.family_name, b.family_name);
}

/// Two personal names stand equal in the order exactly when they are
/// equal.
pub proof fn personal_name_order_agrees_with_equality(a: PersonalName, b: PersonalName)
    ensures
        a.partial_cmp_spec(&b) == Some(Ordering::Equal) <==> a.eq_spec(&b),
{
    personal_name_order_equal(a@, b@);
}

/// Two pseudonyms stand equal in the order exactly when they are equal.
pub proof fn pseudonym_order_agrees_with_equality(a: Psydonym, b: Psydonym)
    ensures
        a.partial_cmp_spec(&b) == Some(Ordering::Equal) <==> a.eq_spec(&b),
{
    personal_name_order_equal(a@.alias_for, b@.alias_for);
    personal_name_order_equal(a@.name, b@.name);
}

} // verus!
