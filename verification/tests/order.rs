use std::cmp::Ordering;

use pro_noun::order::{compare_text, is_char_before};
use pro_noun::{
    FamilyName, GivenName, MiddleName, MidfixTitle, PersonalName, PostfixTitle, PrefixTitle,
    Psydonym,
};

const TEXTS: [&str; 12] = [
    "",
    "A",
    "Ann",
    "Anna",
    "Bob",
    "Zoe",
    "a",
    "anna",
    "\u{c9}lodie",
    "\u{e9}",
    "\u{10348}",
    "\u{ffff}",
];

#[test]
fn compare_text_orders_as_str_does() {
    for a in TEXTS {
        for b in TEXTS {
            assert_eq!(compare_text(a, b), a.cmp(b), "{:?} against {:?}", a, b);
        }
    }
}

#[test]
fn compare_text_exact_values() {
    assert_eq!(compare_text("", ""), Ordering::Equal);
    assert_eq!(compare_text("", "a"), Ordering::Less);
    assert_eq!(compare_text("a", ""), Ordering::Greater);
    assert_eq!(compare_text("Ann", "Anna"), Ordering::Less);
    assert_eq!(compare_text("Anna", "Ann"), Ordering::Greater);
    assert_eq!(compare_text("Anna", "Anna"), Ordering::Equal);
    assert_eq!(compare_text("Anna", "Bob"), Ordering::Less);
    assert_eq!(compare_text("Zoe", "\u{c9}lodie"), Ordering::Less);
    assert_eq!(compare_text("\u{ffff}", "\u{10348}"), Ordering::Less);
}

#[test]
fn is_char_before_follows_the_code_points() {
    assert!(is_char_before('a', 'b'));
    assert!(!is_char_before('b', 'a'));
    assert!(!is_char_before('a', 'a'));
    assert!(is_char_before('Z', 'a'));
    assert!(is_char_before('z', '\u{c9}'));
    assert!(is_char_before('\u{ffff}', '\u{10348}'));
}

#[test]
fn scalar_names_order_by_text() {
    for a in TEXTS {
        for b in TEXTS {
            if a.is_empty() || b.is_empty() {
                continue;
            }
            let (x, y) = (GivenName::new(a).unwrap(), GivenName::new(b).unwrap());
            assert_eq!(x.partial_cmp(&y), Some(a.cmp(b)));
            assert_eq!(x.partial_cmp(&y), Some(x.cmp(&y)));
            assert_eq!(x == y, a == b);
            let (x, y) = (MiddleName::new(a).unwrap(), MiddleName::new(b).unwrap());
            assert_eq!(x.partial_cmp(&y), Some(a.cmp(b)));
            assert_eq!(x.partial_cmp(&y), Some(x.cmp(&y)));
            assert_eq!(x == y, a == b);
            let (x, y) = (FamilyName::new(a).unwrap(), FamilyName::new(b).unwrap());
            assert_eq!(x.partial_cmp(&y), Some(a.cmp(b)));
            assert_eq!(x.partial_cmp(&y), Some(x.cmp(&y)));
            assert_eq!(x == y, a == b);
            let (x, y) = (MidfixTitle::new(a).unwrap(), MidfixTitle::new(b).unwrap());
            assert_eq!(x.partial_cmp(&y), Some(a.cmp(b)));
            assert_eq!(x.partial_cmp(&y), Some(x.cmp(&y)));
            assert_eq!(x == y, a == b);
        }
    }
}

fn prefix_titles() -> Vec<PrefixTitle> {
    let mut titles = Vec::new();
    for name in ["Doctor", "Doc", "Professor"] {
        titles.push(PrefixTitle::new(name).unwrap());
        for abbreviation in ["", "Dr", "Dr.", "Prof."] {
            titles.push(PrefixTitle::new(name).unwrap().with_abbreviation(abbreviation).unwrap());
        }
    }
    titles
}

fn postfix_titles() -> Vec<PostfixTitle> {
    let mut titles = Vec::new();
    for name in ["PhD", "Ph", "MD"] {
        titles.push(PostfixTitle::new(name).unwrap());
        for abbreviation in ["P", "Ph.D.", "M.D."] {
            titles.push(PostfixTitle::new(name).unwrap().with_abbreviation(abbreviation).unwrap());
        }
    }
    titles
}

#[test]
fn titles_order_by_name_then_abbreviation() {
    let doctor = PrefixTitle::new("Doctor").unwrap();
    let doctor_dr = PrefixTitle::new("Doctor").unwrap().with_abbreviation("Dr").unwrap();
    let doctor_empty = PrefixTitle::new("Doctor").unwrap().with_abbreviation("").unwrap();
    let professor = PrefixTitle::new("Professor").unwrap();
    assert_eq!(doctor.partial_cmp(&doctor_dr), Some(Ordering::Less));
    assert_eq!(doctor.partial_cmp(&doctor_empty), Some(Ordering::Less));
    assert_eq!(doctor_empty.partial_cmp(&doctor_dr), Some(Ordering::Less));
    assert_eq!(doctor_dr.partial_cmp(&professor), Some(Ordering::Less));
    assert_eq!(professor.partial_cmp(&doctor_dr), Some(Ordering::Greater));
    assert_eq!(doctor_dr.partial_cmp(&doctor_dr.clone()), Some(Ordering::Equal));

    for a in prefix_titles() {
        for b in prefix_titles() {
            assert_eq!(a.partial_cmp(&b), Some(a.cmp(&b)));
            assert_eq!(a == b, a.cmp(&b) == Ordering::Equal);
        }
    }
    for a in postfix_titles() {
        for b in postfix_titles() {
            assert_eq!(a.partial_cmp(&b), Some(a.cmp(&b)));
            assert_eq!(a == b, a.cmp(&b) == Ordering::Equal);
        }
    }
}

fn personal_names() -> Vec<PersonalName> {
    let mut names = Vec::new();
    for given in [None, Some("Ann"), Some("Bob")] {
        for middles in [vec![], vec!["J"], vec!["J", "K"], vec!["K"], vec!["Ja"]] {
            for family in [None, Some("Smith"), Some("Smythe")] {
                let mut name = PersonalName::new();
                if let Some(given) = given {
                    name = name.with_given_name(given).unwrap();
                }
                for middle in &middles {
                    name = name.with_middle_name(middle).unwrap();
                }
                if let Some(family) = family {
                    name = name.with_family_name(family).unwrap();
                }
                names.push(name);
            }
        }
    }
    names
}

#[test]
fn personal_names_order_part_by_part() {
    let nobody = PersonalName::new();
    let ann = PersonalName::new().with_given_name("Ann").unwrap();
    let ann_j = PersonalName::new().with_given_name("Ann").unwrap().with_middle_name("J").unwrap();
    let ann_smith = PersonalName::new().with_given_name("Ann").unwrap().with_family_name("Smith").unwrap();
    let smith = PersonalName::new().with_family_name("Smith").unwrap();
    assert_eq!(nobody.partial_cmp(&ann), Some(Ordering::Less));
    assert_eq!(nobody.partial_cmp(&smith), Some(Ordering::Less));
    assert_eq!(smith.partial_cmp(&ann), Some(Ordering::Less));
    assert_eq!(ann.partial_cmp(&ann_smith), Some(Ordering::Less));
    assert_eq!(ann_smith.partial_cmp(&ann_j), Some(Ordering::Less));
    assert_eq!(ann_j.partial_cmp(&ann_j.clone()), Some(Ordering::Equal));
    assert!(nobody < ann);
    assert!(ann_j > ann_smith);

    let names = personal_names();
    for a in &names {
        for b in &names {
            assert_eq!(a.partial_cmp(b), Some(a.cmp(b)));
            assert_eq!(a == b, a.cmp(b) == Ordering::Equal);
        }
    }
}

#[test]
fn pseudonyms_order_by_true_name_then_alias() {
    let names = personal_names();
    let picks = [&names[0], &names[7], &names[20], &names[44]];
    let mut pseudonyms = Vec::new();
    for true_name in picks {
        for alias in picks {
            pseudonyms.push(Psydonym::new(true_name, alias));
        }
    }
    for a in &pseudonyms {
        for b in &pseudonyms {
            assert_eq!(a.partial_cmp(b), Some(a.cmp(b)));
            assert_eq!(a == b, a.cmp(b) == Ordering::Equal);
        }
    }
    assert_eq!(
        Psydonym::new(&names[0], &names[44]).partial_cmp(&Psydonym::new(&names[7], &names[0])),
        Some(Ordering::Less)
    );
}
