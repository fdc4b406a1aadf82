use pro_noun::{PrefixTitle, ProNounError};

#[test]
fn create_prefix_title() {
    let title = PrefixTitle::new("Doctor").unwrap();

    assert_eq!(title.name(), "Doctor");
    assert_eq!(title.abbreviation(), None);
}

#[test]
fn create_prefix_title_with_abbreviation() {
    let title = PrefixTitle::new("Doctor")
        .unwrap()
        .with_abbreviation("Dr")
        .unwrap();

    assert_eq!(title.name(), "Doctor");
    assert_eq!(title.abbreviation(), Some("Dr"));
}

#[test]
fn try_from_string() {
    let title = PrefixTitle::try_from("Doctor").unwrap();
    assert_eq!(title.name(), "Doctor");
    assert_eq!(title.abbreviation(), None);
}

#[test]
fn prefix_title_empty_is_empty_value() {
    assert_eq!(PrefixTitle::new(""), Err(ProNounError::EmptyValue));
    assert_eq!(PrefixTitle::try_from(""), Err(ProNounError::EmptyValue));
}

#[test]
fn prefix_title_takes_an_empty_abbreviation() {
    let title = PrefixTitle::new("Doctor")
        .unwrap()
        .with_abbreviation("")
        .unwrap();
    assert_eq!(title.name(), "Doctor");
    assert_eq!(title.abbreviation(), Some(""));
}

#[test]
fn prefix_title_abbreviation_is_replaced() {
    let title = PrefixTitle::new("Professor")
        .unwrap()
        .with_abbreviation("Pr")
        .unwrap()
        .with_abbreviation("Prof.")
        .unwrap();
    assert_eq!(title.name(), "Professor");
    assert_eq!(title.abbreviation(), Some("Prof."));
}

#[test]
fn prefix_title_renders_its_name_only() {
    let title = PrefixTitle::new("Doctor")
        .unwrap()
        .with_abbreviation("Dr")
        .unwrap();
    assert_eq!(title.to_string(), "Doctor");
    assert_eq!(title.clone(), title);
}

#[test]
fn prefix_title_round_trips_without_abbreviation() {
    let title = PrefixTitle::new("Doctor").unwrap();
    assert_eq!(PrefixTitle::new(&title.to_string()), Ok(title));
}

#[test]
fn prefix_title_round_trip_drops_the_abbreviation() {
    let title = PrefixTitle::new("Doctor")
        .unwrap()
        .with_abbreviation("Dr")
        .unwrap();
    let again = PrefixTitle::new(&title.to_string()).unwrap();
    assert_ne!(again, title);
    assert_eq!(again.name(), title.name());
    assert_eq!(again.abbreviation(), None);
}
