use pro_noun::{FamilyName, ProNounError};

#[test]
fn test_family_name_new() {
    let family_name = FamilyName::new("Smith").unwrap();
    assert_eq!(family_name.to_string(), "Smith");
}

#[test]
fn test_family_name_try_from() {
    let family_name = FamilyName::try_from("Smith").unwrap();
    assert_eq!(family_name.to_string(), "Smith");
}

#[test]
fn family_name_empty_is_empty_value() {
    assert_eq!(FamilyName::new(""), Err(ProNounError::EmptyValue));
    assert_eq!(FamilyName::try_from(""), Err(ProNounError::EmptyValue));
}

#[test]
fn family_name_with_space_is_contains_whitespace() {
    assert_eq!(FamilyName::new("Van Helsing"), Err(ProNounError::ContainsWhitespace));
    assert_eq!(FamilyName::try_from("Van Helsing"), Err(ProNounError::ContainsWhitespace));
    assert_eq!(FamilyName::new(" "), Err(ProNounError::ContainsWhitespace));
}

#[test]
fn family_name_round_trips_through_its_rendering() {
    let family_name = FamilyName::new("Smith").unwrap();
    assert_eq!(FamilyName::new(&family_name.to_string()), Ok(family_name));
}

#[test]
fn family_name_clone_is_equal() {
    let family_name = FamilyName::new("Smith").unwrap();
    assert_eq!(family_name.clone(), family_name);
}
