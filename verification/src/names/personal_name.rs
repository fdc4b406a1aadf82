//! The personal name: an optional given name, middle names in their order,
//! and an optional family name; and the names that can stand for a person.

use crate::errors::Error;
use crate::json::{
    json_fields_insert, json_fields_new, json_list, json_null, json_of, json_record, json_text,
    Json,
};
use crate::names::family_name::{family_name_fault, FamilyName};
use crate::names::given_name::{given_name_fault, GivenName};
use crate::names::middle_name::{middle_name_fault, MiddleName};
use crate::names::psydonym::Psydonym;
use crate::order::{optional_text_order, texts_order, then_order};
use crate::text::{join_words, push_word};
use core::cmp::Ordering;
use vstd::prelude::*;
use vstd::std_specs::cmp::PartialEqSpec;
use vstd::string::StringExecFns;

verus! {

/// The name of a person. Any of its parts may be missing, all of them too.
#[derive(Debug, Eq, Ord, Hash)]
pub struct PersonalName {
    given_name: Option<GivenName>,
    middle_names: Vec<MiddleName>,
    family_name: Option<FamilyName>,
}

/// A personal name as plain text: what its contracts speak of.
pub ghost struct PersonalNameView {
    /// The given name, where there is one.
    pub given_name: Option<Seq<char>>,
    /// The middle names, in the order in which they are shown.
    pub middle_names: Seq<Seq<char>>,
    /// The family name, where there is one.
    pub family_name: Option<Seq<char>>,
}

/// The word that an optional part contributes: itself, or nothing.
pub open spec fn optional_word(part: Option<Seq<char>>) -> Seq<Seq<char>> {
    match part {
        Some(word) => seq![word],
        None => Seq::empty(),
    }
}

/// A middle name cut down to its first character and a period.
pub open spec fn initial(middle_name: Seq<char>) -> Seq<char>
    recommends
        middle_name.len() > 0,
{
    seq![middle_name[0], '.']
}

/// The JSON of an optional part: its text, or `null`.
pub open spec fn optional_json(part: Option<Seq<char>>) -> Json {
    match part {
        Some(word) => Json::Text(word),
        None => Json::Null,
    }
}

/// How a personal name stands to another: by the given names first, then
/// by the middle names, then by the family names; a missing part comes
/// before any that is present.
pub open spec fn personal_name_order(a: PersonalNameView, b: PersonalNameView) -> Ordering {
    then_order(
        optional_text_order(a.given_name, b.given_name),
        then_order(
            texts_order(a.middle_names, b.middle_names),
            optional_text_order(a.family_name, b.family_name),
        ),
    )
}

/// The texts of middle names, in their order.
pub open spec fn middle_name_texts(names: Seq<MiddleName>) -> Seq<Seq<char>> {
    names.map_values(|name: MiddleName| name@)
}

impl PersonalNameView {
    /// The parts that are present: given name, middle names, family name.
    pub open spec fn words(self) -> Seq<Seq<char>> {
        optional_word(self.given_name) + self.middle_names + optional_word(self.family_name)
    }

    /// As [`Self::words`], with each middle name cut down to its initial.
    pub open spec fn short_words(self) -> Seq<Seq<char>> {
        optional_word(self.given_name) + self.middle_names.map_values(
            |name: Seq<char>| initial(name),
        ) + optional_word(self.family_name)
    }

    /// The parts that are present, a single space between neighbours; the
    /// empty text where none is.
    pub open spec fn full_name(self) -> Seq<char> {
        join_words(self.words())
    }

    /// The full name with every middle name as an initial.
    pub open spec fn full_name_short(self) -> Seq<char> {
        join_words(self.short_words())
    }

    /// The name as it is displayed: given and family name, whichever are
    /// present, and "Unknown" where neither is. Middle names are not shown.
    pub open spec fn display(self) -> Seq<char> {
        match (self.given_name, self.family_name) {
            (Some(given), Some(family)) => given + seq![' '] + family,
            (None, Some(family)) => family,
            (Some(given), None) => given,
            (None, None) => "Unknown"@,
        }
    }

    /// The JSON object of the name: `given_name` and `family_name` as a
    /// string or `null`, `middle_name` as an array of strings.
    pub open spec fn json(self) -> Json {
        Json::Record(
            Map::<Seq<char>, Json>::empty().insert(
                "given_name"@,
                optional_json(self.given_name),
            ).insert(
                "middle_name"@,
                Json::List(self.middle_names.map_values(|name: Seq<char>| Json::Text(name))),
            ).insert("family_name"@, optional_json(self.family_name)),
        )
    }
}

impl View for PersonalName {
    type V = PersonalNameView;

    closed spec fn view(&self) -> PersonalNameView {
        PersonalNameView {
            given_name: match self.given_name {
                Some(given) => Some(given@),
                None => None,
            },
            middle_names: middle_name_texts(self.middle_names@),
            family_name: match self.family_name {
                Some(family) => Some(family@),
                None => None,
            },
        }
    }
}

impl PersonalName {
    /// The name without any part.
    pub fn new() -> (name: Self)
        ensures
            name@ == (PersonalNameView {
                given_name: None,
                middle_names: Seq::empty(),
                family_name: None,
            }),
    {
        let name = PersonalName { given_name: None, middle_names: Vec::new(), family_name: None };
        assert(name@.middle_names =~= Seq::empty());
        name
    }

    /// The given name, where there is one.
    pub fn given_name(&self) -> (given: Option<&GivenName>)
        ensures
            match given {
                Some(name) => self@.given_name == Some(name@),
                None => self@.given_name is None,
            },
    {
        self.given_name.as_ref()
    }

    /// The middle names, in the order in which they were added.
    pub fn middle_names(&self) -> (names: &Vec<MiddleName>)
        ensures
            middle_name_texts(names@) == self@.middle_names,
    {
        &self.middle_names
    }

    /// The family name, where there is one.
    pub fn family_name(&self) -> (family: Option<&FamilyName>)
        ensures
            match family {
                Some(name) => self@.family_name == Some(name@),
                None => self@.family_name is None,
            },
    {
        self.family_name.as_ref()
    }

    /// The name with `name` as its given name, in place of any it had. A
    /// text that is no given name is reported, by the rule it breaks.
    pub fn with_given_name(self, name: &str) -> (r: Result<Self, Error>)
        ensures
            match r {
                Ok(changed) => given_name_fault(name@) is None && changed@ == (PersonalNameView {
                    given_name: Some(name@),
                    ..self@
                }),
                Err(error) => given_name_fault(name@) matches Some(fault) && error is ProNounError
                    && error.message() == fault.message_for("Given name"@),
            },
    {
        match GivenName::new(name) {
            Ok(given) => Ok(
                PersonalName {
                    given_name: Some(given),
                    middle_names: self.middle_names,
                    family_name: self.family_name,
                },
            ),
            Err(fault) => Err(Error::ProNounError(fault.message("Given name"))),
        }
    }

    /// The name with `name` added after the middle names it had. A text that
    /// is no middle name is reported, by the rule it breaks.
    pub fn with_middle_name(self, name: &str) -> (r: Result<Self, Error>)
        ensures
            match r {
                Ok(changed) => middle_name_fault(name@) is None && changed@ == (PersonalNameView {
                    middle_names: self@.middle_names.push(name@),
                    ..self@
                }),
                Err(error) => middle_name_fault(name@) matches Some(fault) && error is ProNounError
                    && error.message() == fault.message_for("Middle name"@),
            },
    {
        match MiddleName::new(name) {
            Ok(middle) => {
                let ghost before = self.middle_names@;
                let mut middle_names = self.middle_names;
                middle_names.push(middle);
                assert(middle_name_texts(middle_names@) =~= middle_name_texts(before).push(name@));
                Ok(
                    PersonalName {
                        given_name: self.given_name,
                        middle_names,
                        family_name: self.family_name,
                    },
                )
            },
            Err(fault) => Err(Error::ProNounError(fault.message("Middle name"))),
        }
    }

    /// The name with `name` as its family name, in place of any it had. A
    /// text that is no family name is reported, by the rule it breaks.
    pub fn with_family_name(self, name: &str) -> (r: Result<Self, Error>)
        ensures
            match r {
                Ok(changed) => family_name_fault(name@) is None && changed@ == (PersonalNameView {
                    family_name: Some(name@),
                    ..self@
                }),
                Err(error) => family_name_fault(name@) matches Some(fault) && error is ProNounError
                    && error.message() == fault.message_for("Family name"@),
            },
    {
        match FamilyName::new(name) {
            Ok(family) => Ok(
                PersonalName {
                    given_name: self.given_name,
                    middle_names: self.middle_names,
                    family_name: Some(family),
                },
            ),
            Err(fault) => Err(Error::ProNounError(fault.message("Family name"))),
        }
    }

    /// The parts that are present, joined by single spaces.
    pub fn full_name(&self) -> (text: String)
        ensures
            text@ == self@.full_name(),
    {
        let mut text = String::new();
        let ghost mut words: Seq<Seq<char>> = Seq::empty();
        let mut first = true;
        match &self.given_name {
            Some(given) => {
                let word = given.to_string();
                push_word(&mut text, word.as_str(), first, Ghost(words));
                proof {
                    words = words.push(word@);
                }
                first = false;
            },
            None => {},
        }
        assert(words =~= optional_word(self@.given_name));
        let mut i: usize = 0;
        while i < self.middle_names.len()
            invariant
                i <= self.middle_names.len(),
                words == optional_word(self@.given_name) + self@.middle_names.take(i as int),
                text@ == join_words(words),
                first == (words.len() == 0),
            decreases self.middle_names.len() - i,
        {
            let word = self.middle_names[i].to_string();
            push_word(&mut text, word.as_str(), first, Ghost(words));
            proof {
                assert(self@.middle_names.take(i + 1) =~= self@.middle_names.take(i as int).push(
                    word@,
                ));
                words = words.push(word@);
                assert(words =~= optional_word(self@.given_name) + self@.middle_names.take(i + 1));
            }
            first = false;
            i = i + 1;
        }
        assert(self@.middle_names.take(i as int) =~= self@.middle_names);
        match &self.family_name {
            Some(family) => {
                let word = family.to_string();
                push_word(&mut text, word.as_str(), first, Ghost(words));
                proof {
                    words = words.push(word@);
                }
            },
            None => {},
        }
        assert(words =~= self@.words());
        text
    }

    /// The full name with each middle name cut down to its first character
    /// and a period.
    pub fn full_name_short(&self) -> (text: String)
        ensures
            text@ == self@.full_name_short(),
    {
        let mut text = String::new();
        let ghost mut words: Seq<Seq<char>> = Seq::empty();
        let ghost initials = self@.middle_names.map_values(|name: Seq<char>| initial(name));
        let mut first = true;
        match &self.given_name {
            Some(given) => {
                let word = given.to_string();
                push_word(&mut text, word.as_str(), first, Ghost(words));
                proof {
                    words = words.push(word@);
                }
                first = false;
            },
            None => {},
        }
        assert(words =~= optional_word(self@.given_name));
        let mut i: usize = 0;
        while i < self.middle_names.len()
            invariant
                i <= self.middle_names.len(),
                initials == self@.middle_names.map_values(|name: Seq<char>| initial(name)),
                words == optional_word(self@.given_name) + initials.take(i as int),
                text@ == join_words(words),
                first == (words.len() == 0),
            decreases self.middle_names.len() - i,
        {
            let name = self.middle_names[i].to_string();
            let mut word = String::from_str(name.as_str().substring_char(0, 1));
            word.append(".");
            proof {
                reveal_strlit(".");
                assert(word@ =~= initial(self@.middle_names[i as int]));
            }
            push_word(&mut text, word.as_str(), first, Ghost(words));
            proof {
                assert(initials.take(i + 1) =~= initials.take(i as int).push(word@));
                words = words.push(word@);
                assert(words =~= optional_word(self@.given_name) + initials.take(i + 1));
            }
            first = false;
            i = i + 1;
        }
        assert(initials.take(i as int) =~= initials);
        match &self.family_name {
            Some(family) => {
                let word = family.to_string();
                push_word(&mut text, word.as_str(), first, Ghost(words));
                proof {
                    words = words.push(word@);
                }
            },
            None => {},
        }
        assert(words =~= self@.short_words());
        text
    }

    /// Renders the name for display: the given and the family name with a
    /// space between them, the one that is present alone, or "Unknown".
    pub fn to_string(&self) -> (text: String)
        ensures
            text@ == self@.display(),
    {
        proof {
            reveal_strlit(" ");
            assert(" "@ =~= seq![' ']);
        }
        match &self.family_name {
            Some(family) => match &self.given_name {
                Some(given) => {
                    let mut text = given.to_string();
                    text.append(" ");
                    text.append(family.to_string().as_str());
                    text
                },
                None => family.to_string(),
            },
            None => match &self.given_name {
                Some(given) => given.to_string(),
                None => String::from_str("Unknown"),
            },
        }
    }

    /// Projects the name to a JSON object with the fields `given_name`,
    /// `middle_name` and `family_name`.
    pub fn to_json(&self) -> (value: serde_json::Value)
        ensures
            json_of(value) == self@.json(),
    {
        let mut fields = json_fields_new();
        let given = match &self.given_name {
            Some(given) => given.to_json(),
            None => json_null(),
        };
        json_fields_insert(&mut fields, "given_name", given);
        let mut items: Vec<serde_json::Value> = Vec::new();
        let mut i: usize = 0;
        while i < self.middle_names.len()
            invariant
                i <= self.middle_names.len(),
                items@.len() == i,
                forall|j: int|
                    0 <= j < i ==> json_of(#[trigger] items@[j]) == Json::Text(
                        self@.middle_names[j],
                    ),
            decreases self.middle_names.len() - i,
        {
            let name = self.middle_names[i].to_string();
            items.push(json_text(name.as_str()));
            i = i + 1;
        }
        assert(items@.map_values(|item: serde_json::Value| json_of(item))
            =~= self@.middle_names.map_values(|name: Seq<char>| Json::Text(name)));
        json_fields_insert(&mut fields, "middle_name", json_list(items));
        let family = match &self.family_name {
            Some(family) => json_text(family.to_string().as_str()),
            None => json_null(),
        };
        json_fields_insert(&mut fields, "family_name", family);
        json_record(fields)
    }
}

impl Default for PersonalName {
    /// The name without any part, as [`PersonalName::new`] gives it.
    fn default() -> (name: Self)
        ensures
            name@ == (PersonalNameView {
                given_name: None,
                middle_names: Seq::empty(),
                family_name: None,
            }),
    {
        PersonalName::new()
    }
}

impl Clone for PersonalName {
    fn clone(&self) -> (copy: Self)
        ensures
            copy@ == self@,
    {
        let given_name = match &self.given_name {
            Some(given) => Some(given.clone()),
            None => None,
        };
        let mut middle_names: Vec<MiddleName> = Vec::new();
        let mut i: usize = 0;
        while i < self.middle_names.len()
            invariant
                i <= self.middle_names.len(),
                middle_name_texts(middle_names@) == self@.middle_names.take(i as int),
            decreases self.middle_names.len() - i,
        {
            let middle = self.middle_names[i].clone();
            proof {
                assert(middle_name_texts(middle_names@.push(middle)) =~= middle_name_texts(
                    middle_names@,
                ).push(middle@));
                assert(self@.middle_names.take(i + 1) =~= self@.middle_names.take(i as int).push(
                    middle@,
                ));
            }
            middle_names.push(middle);
            i = i + 1;
        }
        assert(self@.middle_names.take(i as int) =~= self@.middle_names);
        let family_name = match &self.family_name {
            Some(family) => Some(family.clone()),
            None => None,
        };
        PersonalName { given_name, middle_names, family_name }
    }
}

impl PartialEq for PersonalName {
    fn eq(&self, other: &Self) -> (equal: bool) {
        let equal = self.given_name == other.given_name && self.middle_names == other.middle_names
            && self.family_name == other.family_name;
        proof {
            let mine = self.middle_names@;
            let theirs = other.middle_names@;
            if self.middle_names.eq_spec(&other.middle_names) {
                assert(middle_name_texts(mine) =~= middle_name_texts(theirs));
            }
            if self@.middle_names == other@.middle_names {
                assert(mine.len() == middle_name_texts(mine).len());
                assert(theirs.len() == middle_name_texts(theirs).len());
                assert forall|i: int| 0 <= i < mine.len() implies mine[i]@ == theirs[i]@ by {
                    assert(middle_name_texts(mine)[i] == mine[i]@);
                    assert(middle_name_texts(theirs)[i] == theirs[i]@);
                }
            }
        }
        equal
    }
}

impl vstd::std_specs::cmp::PartialEqSpecImpl for PersonalName {
    open spec fn obeys_eq_spec() -> bool {
        true
    }

    /// Two personal names are equal when they agree in every part, the
    /// middle names one by one in their order.
    open spec fn eq_spec(&self, other: &Self) -> bool {
        self@ == other@
    }
}

/// Compares two lists of middle names place by place.
fn compare_middle_names(mine: &Vec<MiddleName>, theirs: &Vec<MiddleName>) -> (order: Ordering)
    ensures
        order == texts_order(middle_name_texts(mine@), middle_name_texts(theirs@)),
{
    let ghost a = middle_name_texts(mine@);
    let ghost b = middle_name_texts(theirs@);
    let ghost mut seen: int = 0;
    let mut i: usize = 0;
    proof {
        assert(a.skip(0) =~= a);
        assert(b.skip(0) =~= b);
    }
    loop
        invariant
            seen == i,
            i <= mine.len(),
            i <= theirs.len(),
            a == middle_name_texts(mine@),
            b == middle_name_texts(theirs@),
            texts_order(a, b) == texts_order(a.skip(seen), b.skip(seen)),
        decreases mine.len() - i,
    {
        if i >= mine.len() {
            if i >= theirs.len() {
                return Ordering::Equal;
            } else {
                return Ordering::Less;
            }
        }
        if i >= theirs.len() {
            return Ordering::Greater;
        }
        proof {
            assert(a.skip(seen)[0] == mine@[seen]@);
            assert(b.skip(seen)[0] == theirs@[seen]@);
            assert(a.skip(seen).drop_first() =~= a.skip(seen + 1));
            assert(b.skip(seen).drop_first() =~= b.skip(seen + 1));
        }
        match mine[i].partial_cmp(&theirs[i]) {
            Some(Ordering::Less) => {
                return Ordering::Less;
            },
            Some(Ordering::Greater) => {
                return Ordering::Greater;
            },
            _ => {},
        }
        i = i + 1;
        proof {
            seen = seen + 1;
        }
    }
}

impl PartialOrd for PersonalName {
    fn partial_cmp(&self, other: &Self) -> (order: Option<Ordering>) {
        match self.given_name.partial_cmp(&other.given_name) {
            Some(Ordering::Less) => {
                return Some(Ordering::Less);
            },
            Some(Ordering::Greater) => {
                return Some(Ordering::Greater);
            },
            _ => {},
        }
        match compare_middle_names(&self.middle_names, &other.middle_names) {
            Ordering::Less => {
                return Some(Ordering::Less);
            },
            Ordering::Greater => {
                return Some(Ordering::Greater);
            },
            Ordering::Equal => {},
        }
        self.family_name.partial_cmp(&other.family_name)
    }
}

impl vstd::std_specs::cmp::PartialOrdSpecImpl for PersonalName {
    open spec fn obeys_partial_cmp_spec() -> bool {
        true
    }

    /// Personal names are ordered part by part: see [`personal_name_order`].
    open spec fn partial_cmp_spec(&self, other: &Self) -> Option<Ordering> {
        Some(personal_name_order(self@, other@))
    }
}

/// A name that stands for a person: the true name, or an alias for it.
pub enum Name {
    /// The person's own name.
    TrueName(PersonalName),
    /// A pseudonym shown in the place of the own name.
    Alias(Psydonym),
}

/// What every kind of name can tell: always about the name that it shows.
pub trait NameTrait {
    /// The personal name that is shown.
    spec fn shown(&self) -> PersonalNameView;

    /// The full name of the name shown.
    fn full_name(&self) -> (text: String)
        ensures
            text@ == self.shown().full_name(),
    ;

    /// The given name of the name shown, where it has one.
    fn given_name(&self) -> (given: Option<String>)
        ensures
            match given {
                Some(text) => self.shown().given_name == Some(text@),
                None => self.shown().given_name is None,
            },
    ;

    /// The family name of the name shown, where it has one.
    fn family_name(&self) -> (family: Option<String>)
        ensures
            match family {
                Some(text) => self.shown().family_name == Some(text@),
                None => self.shown().family_name is None,
            },
    ;
}

impl NameTrait for Name {
    /// A true name shows itself; an alias shows what the pseudonym shows.
    open spec fn shown(&self) -> PersonalNameView {
        match self {
            Name::TrueName(name) => name@,
            Name::Alias(pseudonym) => pseudonym.shown(),
        }
    }

    fn full_name(&self) -> (text: String) {
        match self {
            Name::TrueName(name) => name.full_name(),
            Name::Alias(pseudonym) => pseudonym.full_name(),
        }
    }

    fn given_name(&self) -> (given: Option<String>) {
        match self {
            Name::TrueName(name) => match name.given_name() {
                Some(given) => Some(given.to_string()),
                None => None,
            },
            Name::Alias(pseudonym) => pseudonym.given_name(),
        }
    }

    fn family_name(&self) -> (family: Option<String>) {
        match self {
            Name::TrueName(name) => match name.family_name() {
                Some(family) => Some(family.to_string()),
                None => None,
            },
            Name::Alias(pseudonym) => pseudonym.family_name(),
        }
    }
}

} // verus!
