use pro_noun::{MiddleName, ProNounError};

// Should create a new MiddleName instance
#[test]
fn middle_name_new() {
    let middle_name = MiddleName::new("John");
    assert_eq!(middle_name.unwrap().to_string(), "John");
}

// Should be able to create a new MiddleName instance using TryFrom
#[test]
fn middle_name_try_from() {
    let middle_name = MiddleName::try_from("John");
    assert_eq!(middle_name.unwrap().to_string(), "John");
}

// Should not be able to create a new MiddleName instance with an empty value
#[test]
fn middle_name_try_from_empty() {
    let middle_name = MiddleName::try_from("");
    assert_eq!(
        middle_name.map_err(|fault| fault.message("Middle name")),
        Err("Middle name cannot be empty".to_string())
    );
}

// Should display the MiddleName correctly
#[test]
fn middle_name_display() {
    let middle_name = MiddleName::new("John").unwrap();
    assert_eq!(middle_name.to_string(), "John");
}

#[test]
fn middle_name_empty_is_empty_value() {
    assert_eq!(MiddleName::new(""), Err(ProNounError::EmptyValue));
    assert_eq!(MiddleName::try_from(""), Err(ProNounError::EmptyValue));
}

#[test]
fn middle_name_may_hold_spaces() {
    let middle_name = MiddleName::new("van der").unwrap();
    assert_eq!(middle_name.to_string(), "van der");
    assert_eq!(MiddleName::new(" ").unwrap().to_string(), " ");
}

#[test]
fn middle_name_round_trips_through_its_rendering() {
    let middle_name = MiddleName::new("van der").unwrap();
    assert_eq!(MiddleName::new(&middle_name.to_string()), Ok(middle_name));
}

#[test]
fn middle_name_clone_is_equal() {
    let middle_name = MiddleName::new("Jacob").unwrap();
    assert_eq!(middle_name.clone(), middle_name);
}
