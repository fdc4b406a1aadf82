use pro_noun::{Name, NameTrait, PersonalName, Psydonym};

#[test]
fn new_with_valid_values() {
    let name = PersonalName::new().with_given_name("Olórin").unwrap();
    let alias = PersonalName::new().with_given_name("Gandalf").unwrap();

    let psuedonym = Psydonym::new(&name, &alias);

    assert_eq!(psuedonym.alias_for(), &name);
    assert_eq!(psuedonym.name(), Some("Gandalf".to_string()));
}

#[test]
fn full_name() {
    let name = PersonalName::new().with_given_name("Olórin").unwrap();
    let alias = PersonalName::new().with_given_name("Gandalf").unwrap();

    let psuedonym = Psydonym::new(&name, &alias);

    assert_eq!(psuedonym.full_name(), "Gandalf".to_string());
}

#[test]
fn true_name() {
    let name = PersonalName::new().with_given_name("Olórin").unwrap();
    let alias = PersonalName::new().with_given_name("Gandalf").unwrap();

    let psuedonym = Psydonym::new(&name, &alias);

    assert_eq!(psuedonym.true_name(), &name);
}

#[test]
fn name_trait_given_name() {
    let name = PersonalName::new().with_given_name("Olórin").unwrap();
    let alias = PersonalName::new().with_given_name("Gandalf").unwrap();

    let psuedonym = Psydonym::new(&name, &alias);

    assert_eq!(psuedonym.given_name(), Some("Gandalf".to_string()));
}

#[test]
fn name_trait_family_name() {
    let name = PersonalName::new().with_family_name("Mithrandir").unwrap();
    let alias = PersonalName::new().with_family_name("Greyhame").unwrap();

    let psuedonym = Psydonym::new(&name, &alias);

    assert_eq!(psuedonym.family_name(), Some("Greyhame".to_string()));
}

#[test]
fn name_trait_full_name() {
    let name = PersonalName::new().with_given_name("Olórin").unwrap();
    let alias = PersonalName::new().with_given_name("Gandalf").unwrap();

    let psuedonym = Psydonym::new(&name, &alias);

    assert_eq!(psuedonym.full_name(), "Gandalf".to_string());
}

#[test]
fn pseudonym_shows_the_alias_and_keeps_the_true_name() {
    let name = PersonalName::new().with_given_name("Olorin").unwrap();
    let alias = PersonalName::new().with_given_name("Gandalf").unwrap();

    let pseudonym = Psydonym::new(&name, &alias);

    assert_eq!(pseudonym.name(), Some("Gandalf".to_string()));
    assert_eq!(pseudonym.alias_for().to_string(), "Olorin");
    assert_eq!(pseudonym.true_name().to_string(), "Olorin");
    assert_eq!(pseudonym.alias(), &alias);
    assert_eq!(pseudonym.given_name(), Some("Gandalf".to_string()));
    assert_eq!(pseudonym.family_name(), None);
    assert_eq!(pseudonym.to_string(), "Gandalf");
}

#[test]
fn pseudonym_of_an_empty_alias_is_unknown() {
    let name = PersonalName::new().with_given_name("Olorin").unwrap();
    let pseudonym = Psydonym::new(&name, &PersonalName::new());

    assert_eq!(pseudonym.name(), Some("Unknown".to_string()));
    assert_eq!(pseudonym.to_string(), "Unknown");
    assert_eq!(pseudonym.full_name(), "");
    assert_eq!(pseudonym.given_name(), None);
    assert_eq!(pseudonym.family_name(), None);
}

#[test]
fn pseudonym_may_equal_the_true_name() {
    let name = PersonalName::new().with_given_name("Olorin").unwrap();
    let pseudonym = Psydonym::new(&name, &name);

    assert_eq!(pseudonym.alias_for(), &name);
    assert_eq!(pseudonym.name(), Some("Olorin".to_string()));
}

#[test]
fn pseudonym_copies_its_arguments() {
    let name = PersonalName::new().with_given_name("Olorin").unwrap();
    let alias = PersonalName::new()
        .with_given_name("Gandalf")
        .unwrap()
        .with_middle_name("the")
        .unwrap()
        .with_family_name("Grey")
        .unwrap();
    let pseudonym = Psydonym::new(&name, &alias);
    let changed = alias.with_family_name("White").unwrap();

    assert_eq!(pseudonym.full_name(), "Gandalf the Grey");
    assert_eq!(changed.full_name(), "Gandalf the White");
    assert_eq!(pseudonym.clone(), pseudonym);
}

#[test]
fn name_facade_reads_the_true_name() {
    let name = PersonalName::new()
        .with_given_name("John")
        .unwrap()
        .with_middle_name("Jacob")
        .unwrap()
        .with_family_name("Smith")
        .unwrap();
    let facade = Name::TrueName(name);

    assert_eq!(facade.full_name(), "John Jacob Smith");
    assert_eq!(facade.given_name(), Some("John".to_string()));
    assert_eq!(facade.family_name(), Some("Smith".to_string()));
}

#[test]
fn name_facade_reads_the_alias_of_a_pseudonym() {
    let name = PersonalName::new().with_given_name("Olorin").unwrap();
    let alias = PersonalName::new().with_family_name("Greyhame").unwrap();
    let facade = Name::Alias(Psydonym::new(&name, &alias));

    assert_eq!(facade.full_name(), "Greyhame");
    assert_eq!(facade.given_name(), None);
    assert_eq!(facade.family_name(), Some("Greyhame".to_string()));
}

#[test]
fn name_facade_of_an_empty_name() {
    let facade = Name::TrueName(PersonalName::new());

    assert_eq!(facade.full_name(), "");
    assert_eq!(facade.given_name(), None);
    assert_eq!(facade.family_name(), None);
}
